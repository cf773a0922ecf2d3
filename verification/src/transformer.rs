//! Label transformer: a sample together with the readable names of its two
//! enumerated fields, as the consumer publishes it.

use crate::bulk::PinecilBulkData;
use crate::clock::Timestamp;
use vstd::prelude::*;

verus! {

/// Readable name of a power-source code.
pub open spec fn power_source_name(code: u32) -> Seq<char> {
    if code == 0 {
        "DCIN"@
    } else if code == 1 {
        "USB"@
    } else if code == 2 {
        "PD+VBUS"@
    } else if code == 3 {
        "PD"@
    } else {
        "Unknown"@
    }
}

/// Readable name of an operating-mode code.
pub open spec fn operating_mode_name(code: u32) -> Seq<char> {
    if code == 0 {
        "Idle"@
    } else if code == 1 {
        "Soldering"@
    } else if code == 2 {
        "Boost"@
    } else if code == 3 {
        "Sleeping"@
    } else if code == 4 {
        "Settings"@
    } else if code == 5 {
        "Debug"@
    } else {
        "Unknown"@
    }
}

/// A labelled sample as contracts speak of it.
pub struct LabelledView {
    pub bulk_data: PinecilBulkData,
    /// Seconds since the Unix epoch.
    pub timestamp: i64,
    pub power_source_label: Seq<char>,
    pub operating_mode_label: Seq<char>,
}

/// The labelled form of a sample, not yet stamped.
pub open spec fn labelled(data: PinecilBulkData) -> LabelledView {
    LabelledView {
        bulk_data: data,
        timestamp: 0,
        power_source_label: power_source_name(data.power_source),
        operating_mode_label: operating_mode_name(data.operating_mode),
    }
}

/// Construction of a published value from a sample.
pub trait FromPinecilBulkData: Sized {
    /// The published form of `data`.
    fn from_pinecil_bulk_data(data: &PinecilBulkData) -> Self;

    /// The same value, stamped with `timestamp`.
    fn with_timestamp(self, timestamp: Timestamp) -> Self;
}

/// A sample with its labels and the second at which it was taken.
#[derive(Debug, Clone)]
pub struct PinecilDataWithLabels {
    bulk_data: PinecilBulkData,
    timestamp: i64,
    power_source_label: String,
    operating_mode_label: String,
}

impl View for PinecilDataWithLabels {
    type V = LabelledView;

    closed spec fn view(&self) -> LabelledView {
        LabelledView {
            bulk_data: self.bulk_data,
            timestamp: self.timestamp,
            power_source_label: self.power_source_label@,
            operating_mode_label: self.operating_mode_label@,
        }
    }
}

impl FromPinecilBulkData for PinecilDataWithLabels {
    /// Labels a sample. The timestamp is zero until `with_timestamp` sets it.
    fn from_pinecil_bulk_data(data: &PinecilBulkData) -> (labelled_data: Self)
        ensures
            labelled_data@ == labelled(*data),
    {
        let power_source_label = if data.power_source == 0 {
            "DCIN"
        } else if data.power_source == 1 {
            "USB"
        } else if data.power_source == 2 {
            "PD+VBUS"
        } else if data.power_source == 3 {
            "PD"
        } else {
            "Unknown"
        };
        let operating_mode_label = if data.operating_mode == 0 {
            "Idle"
        } else if data.operating_mode == 1 {
            "Soldering"
        } else if data.operating_mode == 2 {
            "Boost"
        } else if data.operating_mode == 3 {
            "Sleeping"
        } else if data.operating_mode == 4 {
            "Settings"
        } else if data.operating_mode == 5 {
            "Debug"
        } else {
            "Unknown"
        };
        PinecilDataWithLabels {
            bulk_data: *data,
            timestamp: 0,
            power_source_label: power_source_label.to_owned(),
            operating_mode_label: operating_mode_label.to_owned(),
        }
    }

    /// Stamps the value with the whole seconds of `timestamp`.
    fn with_timestamp(self, timestamp: Timestamp) -> (stamped: Self)
        ensures
            stamped@ == (LabelledView { timestamp: timestamp.secs, ..self@ }),
    {
        let mut stamped = self;
        stamped.timestamp = timestamp.secs;
        stamped
    }
}

impl PinecilDataWithLabels {
    /// The sample.
    pub fn bulk_data(&self) -> (data: &PinecilBulkData)
        ensures
            *data == self@.bulk_data,
    {
        &self.bulk_data
    }

    /// Seconds since the Unix epoch at which the sample was taken.
    pub fn timestamp(&self) -> (secs: i64)
        ensures
            secs == self@.timestamp,
    {
        self.timestamp
    }

    /// Readable name of the sample's power source.
    pub fn power_source_label(&self) -> (label: &str)
        ensures
            label@ == self@.power_source_label,
    {
        self.power_source_label.as_str()
    }

    /// Readable name of the sample's operating mode.
    pub fn operating_mode_label(&self) -> (label: &str)
        ensures
            label@ == self@.operating_mode_label,
    {
        self.operating_mode_label.as_str()
    }
}

} // verus!

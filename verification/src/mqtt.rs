//! What goes to the publish sink: a topic and a payload.

use vstd::prelude::*;
use vstd::string::StringExecFns;

verus! {

/// Client identifier that the bridge presents to the broker.
pub const CLIENT_ID: &'static str = "pinecil2mqtt";

/// Keep-alive interval of the broker connection, in seconds.
pub const KEEP_ALIVE_SECS: u64 = 60;

/// A message as contracts speak of it.
pub struct PublishView {
    pub topic: Seq<char>,
    pub payload: Seq<char>,
}

/// The topic under which the samples of the device with the given device ID
/// are published.
pub open spec fn bulk_topic(id: Seq<char>) -> Seq<char> {
    "pinecil/"@ + id + "/bulk"@
}

/// One message for the publish sink.
#[derive(Debug, Clone)]
pub struct Message {
    topic: String,
    payload: String,
}

impl View for Message {
    type V = PublishView;

    closed spec fn view(&self) -> PublishView {
        PublishView { topic: self.topic@, payload: self.payload@ }
    }
}

impl Message {
    /// The message that carries the serialised sample `payload` of the device
    /// with device ID `id`.
    pub fn from_pinecil_bulk_data(id: String, payload: String) -> (message: Message)
        ensures
            message@ == (PublishView { topic: bulk_topic(id@), payload: payload@ }),
    {
        let mut topic = String::from_str("pinecil/");
        topic.append(id.as_str());
        topic.append("/bulk");
        Message { topic, payload }
    }

    /// Where the message is published.
    pub fn topic(&self) -> (topic: &str)
        ensures
            topic@ == self@.topic,
    {
        self.topic.as_str()
    }

    /// What is published.
    pub fn payload(&self) -> (payload: &str)
        ensures
            payload@ == self@.payload,
    {
        self.payload.as_str()
    }
}

} // verus!

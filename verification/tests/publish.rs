use pinecil2mqtt::bulk::{decode, PinecilBulkData};
use pinecil2mqtt::clock::Timestamp;
use pinecil2mqtt::config::{MqttConfig, Settings};
use pinecil2mqtt::mqtt::{Message, CLIENT_ID, KEEP_ALIVE_SECS};
use pinecil2mqtt::transformer::{FromPinecilBulkData, PinecilDataWithLabels};

fn sample(power_source: u32, operating_mode: u32) -> PinecilBulkData {
    let mut data = decode(&[0u8; 56]).unwrap();
    data.power_source = power_source;
    data.operating_mode = operating_mode;
    data
}

#[test]
fn all_zero_record_is_labelled_dcin_and_idle() {
    let data = decode(&[0u8; 56]).unwrap();
    let labelled = PinecilDataWithLabels::from_pinecil_bulk_data(&data);
    assert_eq!(*labelled.bulk_data(), data);
    assert_eq!(labelled.bulk_data().power_source, 0);
    assert_eq!(labelled.bulk_data().operating_mode, 0);
    assert_eq!(labelled.power_source_label(), "DCIN");
    assert_eq!(labelled.operating_mode_label(), "Idle");
    assert_eq!(labelled.timestamp(), 0);
}

#[test]
fn power_source_labels() {
    let expected = ["DCIN", "USB", "PD+VBUS", "PD", "Unknown", "Unknown"];
    for (code, label) in expected.iter().enumerate() {
        let labelled = PinecilDataWithLabels::from_pinecil_bulk_data(&sample(code as u32, 0));
        assert_eq!(labelled.power_source_label(), *label);
    }
    let labelled = PinecilDataWithLabels::from_pinecil_bulk_data(&sample(u32::MAX, 0));
    assert_eq!(labelled.power_source_label(), "Unknown");
}

#[test]
fn operating_mode_labels() {
    let expected = ["Idle", "Soldering", "Boost", "Sleeping", "Settings", "Debug", "Unknown", "Unknown"];
    for (code, label) in expected.iter().enumerate() {
        let labelled = PinecilDataWithLabels::from_pinecil_bulk_data(&sample(0, code as u32));
        assert_eq!(labelled.operating_mode_label(), *label);
    }
    let labelled = PinecilDataWithLabels::from_pinecil_bulk_data(&sample(0, u32::MAX));
    assert_eq!(labelled.operating_mode_label(), "Unknown");
}

#[test]
fn labelling_keeps_the_sample() {
    let data = sample(2, 1);
    let labelled = PinecilDataWithLabels::from_pinecil_bulk_data(&data);
    assert_eq!(*labelled.bulk_data(), data);
    assert_eq!(labelled.power_source_label(), "PD+VBUS");
    assert_eq!(labelled.operating_mode_label(), "Soldering");
}

#[test]
fn timestamp_is_kept_in_whole_seconds() {
    let data = sample(1, 2);
    let stamped = PinecilDataWithLabels::from_pinecil_bulk_data(&data)
        .with_timestamp(Timestamp { secs: 1_431_648_000, nanos: 999_999_999 });
    assert_eq!(stamped.timestamp(), 1_431_648_000);
    assert_eq!(*stamped.bulk_data(), data);
    assert_eq!(stamped.power_source_label(), "USB");
    assert_eq!(stamped.operating_mode_label(), "Boost");
}

#[test]
fn message_topic_names_the_device() {
    let message = Message::from_pinecil_bulk_data("DEADBEEF".to_string(), "{\"live_temp\":320}".to_string());
    assert_eq!(message.topic(), "pinecil/DEADBEEF/bulk");
    assert_eq!(message.payload(), "{\"live_temp\":320}");
}

#[test]
fn message_topic_with_empty_device_id() {
    let message = Message::from_pinecil_bulk_data(String::new(), String::new());
    assert_eq!(message.topic(), "pinecil//bulk");
    assert_eq!(message.payload(), "");
}

#[test]
fn broker_session_constants() {
    assert_eq!(CLIENT_ID, "pinecil2mqtt");
    assert_eq!(KEEP_ALIVE_SECS, 60);
}

#[test]
fn settings_defaults() {
    let settings = Settings::new(MqttConfig::new(None, None, None, None), None);
    assert_eq!(settings.log_level(), "info");
    assert_eq!(settings.mqtt().host(), "localhost");
    assert_eq!(settings.mqtt().port(), 1883);
    assert_eq!(settings.mqtt().username(), None);
    assert_eq!(settings.mqtt().password(), None);
}

#[test]
fn default_values_by_name() {
    assert_eq!(Settings::default_log_level(), "info");
    assert_eq!(MqttConfig::default_host(), "localhost");
    assert_eq!(MqttConfig::default_port(), 1883);
}

#[test]
fn configured_values_replace_the_defaults() {
    let mqtt = MqttConfig::new(
        Some("broker.example".to_string()),
        Some(8883),
        Some("iron".to_string()),
        Some("solder".to_string()),
    );
    let settings = Settings::new(mqtt, Some("debug".to_string()));
    assert_eq!(settings.log_level(), "debug");
    assert_eq!(settings.mqtt().host(), "broker.example");
    assert_eq!(settings.mqtt().port(), 8883);
    assert_eq!(settings.mqtt().username(), Some("iron"));
    assert_eq!(settings.mqtt().password(), Some("solder"));
}

#[test]
fn set_log_level_changes_only_the_log_level() {
    let mut settings = Settings::new(MqttConfig::new(Some("h".to_string()), Some(1), None, None), None);
    settings.set_log_level("trace".to_string());
    assert_eq!(settings.log_level(), "trace");
    assert_eq!(settings.mqtt().host(), "h");
    assert_eq!(settings.mqtt().port(), 1);
}

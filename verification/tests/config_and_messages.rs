use vcard_dispatch::config::{Config, ConfigError, DispatchPolicy, OverflowPolicy, Setting};
use vcard_dispatch::message::{
    reply_for, InboundMessage, Intake, MalformedInput, OutboundMessage,
};

fn some(s: &str) -> Option<String> {
    Some(s.to_string())
}

#[test]
fn settings_load_with_default_trigger() {
    let config =
        Config::from_settings(some("key"), some("https://x.example"), some("447000"), None, some("4917"))
            .unwrap();
    assert_eq!(config.infobip_api_key, "key");
    assert_eq!(config.infobip_base_url, "https://x.example");
    assert_eq!(config.whatsapp_phone_number_id, "447000");
    assert_eq!(config.trigger_word, "addcontact");
    assert_eq!(config.recipient_phone_number, "4917");
}

#[test]
fn settings_load_with_given_trigger() {
    let config =
        Config::from_settings(some("key"), some("url"), some("id"), some("hello"), some("to")).unwrap();
    assert_eq!(config.trigger_word, "hello");
}

#[test]
fn missing_api_key_is_reported_first() {
    let r = Config::from_settings(None, None, None, None, None);
    assert_eq!(r.unwrap_err(), ConfigError::Missing(Setting::ApiKey));
}

#[test]
fn missing_base_url_is_reported() {
    let r = Config::from_settings(some("key"), None, some("id"), None, None);
    assert_eq!(r.unwrap_err(), ConfigError::Missing(Setting::BaseUrl));
}

#[test]
fn missing_phone_number_id_is_reported() {
    let r = Config::from_settings(some("key"), some("url"), None, some("t"), some("to"));
    assert_eq!(r.unwrap_err(), ConfigError::Missing(Setting::PhoneNumberId));
}

#[test]
fn missing_recipient_is_reported() {
    let r = Config::from_settings(some("key"), some("url"), some("id"), some("t"), None);
    assert_eq!(r.unwrap_err(), ConfigError::Missing(Setting::Recipient));
}

#[test]
fn settings_have_their_variables() {
    assert_eq!(Setting::ApiKey.variable(), "INFOBIP_API_KEY");
    assert_eq!(Setting::BaseUrl.variable(), "INFOBIP_BASE_URL");
    assert_eq!(Setting::PhoneNumberId.variable(), "WHATSAPP_PHONE_NUMBER_ID");
    assert_eq!(Setting::Recipient.variable(), "RECIPIENT_PHONE_NUMBER");
}

#[test]
fn default_policy_is_one_second_every_cycle_queue_of_100() {
    let policy = DispatchPolicy::default();
    assert_eq!(policy.delay_millis, 1000);
    assert!(policy.sleep_every_cycle);
    assert_eq!(policy.queue_capacity, 100);
    assert_eq!(policy.overflow, OverflowPolicy::Block);
}

#[test]
fn policy_needs_room_in_the_queue() {
    assert_eq!(
        DispatchPolicy::new(5, false, 0, OverflowPolicy::Reject).unwrap_err(),
        ConfigError::ZeroCapacity
    );
    let policy = DispatchPolicy::new(5, false, 1, OverflowPolicy::Reject).unwrap();
    assert_eq!(policy.delay_millis, 5);
    assert!(!policy.sleep_every_cycle);
    assert_eq!(policy.queue_capacity, 1);
    assert_eq!(policy.overflow, OverflowPolicy::Reject);
}

#[test]
fn payload_with_sender_and_text_is_a_message() {
    let m = InboundMessage::from_payload(some("4915"), some("hi")).unwrap();
    assert_eq!(m.sender, "4915");
    assert_eq!(m.text, some("hi"));
    assert_eq!(m.text_or_empty(), "hi");
}

#[test]
fn payload_without_text_has_the_empty_text() {
    let m = InboundMessage::from_payload(some("4915"), None).unwrap();
    assert_eq!(m.text, None);
    assert_eq!(m.text_or_empty(), "");
}

#[test]
fn payload_without_sender_is_malformed() {
    assert_eq!(
        InboundMessage::from_payload(None, some("hi")).unwrap_err(),
        MalformedInput::MissingSender
    );
}

#[test]
fn payload_with_empty_sender_is_malformed() {
    assert_eq!(
        InboundMessage::from_payload(some(""), some("hi")).unwrap_err(),
        MalformedInput::MissingSender
    );
}

#[test]
fn replies_by_intake() {
    assert_eq!(reply_for(Intake::Accepted), (200, "Message processed".to_string()));
    assert_eq!(reply_for(Intake::Malformed), (400, "Malformed message".to_string()));
    assert_eq!(reply_for(Intake::Busy), (503, "Server busy".to_string()));
}

#[test]
fn card_message_has_introduction_and_card() {
    let config =
        Config::from_settings(some("key"), some("url"), some("447000"), None, some("4917")).unwrap();
    let m = OutboundMessage::with_card(&config, "BEGIN:VCARD\nEND:VCARD", "4930");
    assert_eq!(m.from, "447000");
    assert_eq!(m.to, "4930");
    assert_eq!(m.body, "Here is the contact vCard:\nBEGIN:VCARD\nEND:VCARD");
}

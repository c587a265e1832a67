use ingress_proxy::intersect_messaging::{
    extract_eventsource_data, has_delimiter, make_eventsource_data, should_message_passthrough,
    source_matches_system, IntersectMessage, IntersectMessageHeaders,
};

#[test]
fn should_return_true_if_this_system_in_message() {
    let sample_message = r#"{"messageId":"39d9c119-3b0a-474e-ae3d-f3eb5f8d3a86","operationId":"say_hello_to_name","contentType":"application/json","payload":"\"hello_client\"","headers":{"destination":"tmp-4b19600a-527d-4a0b-9bf7-f500d9656350.tmp-.tmp-.-.tmp-","source":"hello-organization.hello-facility.hello-system.hello-subsystem.hello-service","sdk_version":"0.6.2","created_at":"2024-06-28T15:14:39.117515Z","data_handler":0,"has_error":false}}"#;

    let this_system = "hello-organization.hello-facility.hello-system";

    let result = should_message_passthrough(sample_message, this_system);
    assert!(result.is_ok());
    assert!(result.unwrap() == true);
}

#[test]
fn should_return_false_if_this_system_not_in_message() {
    let sample_message = r#"{"messageId":"39d9c119-3b0a-474e-ae3d-f3eb5f8d3a86","operationId":"say_hello_to_name","contentType":"application/json","payload":"\"hello_client\"","headers":{"destination":"tmp-4b19600a-527d-4a0b-9bf7-f500d9656350.tmp-.tmp-.-.tmp-","source":"hello-organization.hello-facility.hello-system.hello-subsystem.hello-service","sdk_version":"0.6.2","created_at":"2024-06-28T15:14:39.117515Z","data_handler":0,"has_error":false}}"#;

    let this_system = "bye-organization.bye-facility.bye-system";

    let result = should_message_passthrough(sample_message, this_system);
    assert!(result.is_ok());
    assert!(result.unwrap() == false);
}

#[test]
fn should_error_if_cant_serialize() {
    let sample_message = r#"{{[}[}}"#;

    let this_system = "hello-organization.hello-facility.hello-system";

    let result = should_message_passthrough(sample_message, this_system);
    assert!(result.is_err());
}

#[test]
fn encode_decode_eventsource_msg_idempotent() {
    let channel = "channel";
    let message = "mess\x01age\x01"; // message also uses delimiter but can still be restored exactly as-is

    let encoded = make_eventsource_data(channel, message);
    // our delimiter only adds one byte to all the data we want to push through
    assert!(encoded.len() == channel.len() + message.len() + 1);

    let (decoded_channel, decoded_message) = extract_eventsource_data(&encoded);
    assert_eq!(channel, decoded_channel);
    assert_eq!(message, decoded_message);
}

#[test]
fn extract_without_delimiter_yields_empty_strings() {
    let (channel, message) = extract_eventsource_data("no delimiter in here");
    assert_eq!(channel, "");
    assert_eq!(message, "");
    assert!(!has_delimiter("no delimiter in here"));
    assert!(has_delimiter("a\x01b"));
}

#[test]
fn extract_splits_at_first_delimiter_only() {
    let (channel, message) = extract_eventsource_data("top\x01pay\x01load");
    assert_eq!(channel, "top");
    assert_eq!(message, "pay\x01load");
}

#[test]
fn encode_decode_empty_parts() {
    let encoded = make_eventsource_data("", "");
    assert_eq!(encoded, "\x01");
    let (channel, message) = extract_eventsource_data(&encoded);
    assert_eq!(channel, "");
    assert_eq!(message, "");
}

#[test]
fn passthrough_requires_headers_source_string() {
    // valid JSON, but no headers.source: must error, not return a boolean
    assert!(should_message_passthrough(r#"{"headers":{}}"#, "sys").is_err());
    assert!(should_message_passthrough(r#"{"payload":"x"}"#, "sys").is_err());
    // source present but not a string
    assert!(should_message_passthrough(r#"{"headers":{"source":3}}"#, "sys").is_err());
    // exact prefix match counts
    assert!(should_message_passthrough(r#"{"headers":{"source":"sysA.x"}}"#, "sysA").unwrap());
    // a source that merely shares a prefix of the configured system does not
    assert!(!should_message_passthrough(r#"{"headers":{"source":"sysB.x"}}"#, "sysA").unwrap());
}

#[test]
fn source_match_is_prefix_match() {
    let msg = IntersectMessage {
        headers: IntersectMessageHeaders { source: "org.fac.sys.sub".to_string() },
    };
    assert!(source_matches_system(&msg, "org.fac.sys"));
    assert!(source_matches_system(&msg, ""));
    assert!(!source_matches_system(&msg, "org.fac.other"));
    assert!(!source_matches_system(&msg, "org.fac.sys.sub.longer"));
}

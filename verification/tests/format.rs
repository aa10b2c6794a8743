use callfile::CallFile;
use callfile::CallerId;

#[test]
fn minimum_call_file() {
    let cf = CallFile {
        channel: "SIP/just-chickens/1234567890".into(),
        caller_id: CallerId::new("0987654321".into(), None),
        wait_time_secs: None,
        max_retries: None,
        retry_time_secs: None,
        account: None,
    };

    assert_eq!(
        cf.to_text(),
        "Channel: SIP/just-chickens/1234567890\r\nCallerID: \"<0987654321>\"\r\n"
    );
}

#[test]
fn caller_id_with_name() {
    let cf = CallFile {
        channel: "SIP/just-chickens/1234567890".into(),
        caller_id: CallerId::new("0987654321".into(), Some("Johnny".into())),
        wait_time_secs: None,
        max_retries: None,
        retry_time_secs: None,
        account: None,
    };

    assert_eq!(
        cf.to_text(),
        "Channel: SIP/just-chickens/1234567890\r\nCallerID: \"'Johnny' <0987654321>\"\r\n"
    );
}

#[test]
fn caller_id_number_only() {
    let cid = CallerId::new("5551234".into(), None);
    assert_eq!(cid.to_text(), "<5551234>");
}

#[test]
fn caller_id_name_and_number() {
    let cid = CallerId::new("5559876543".into(), Some("Jane".into()));
    assert_eq!(cid.to_text(), "'Jane' <5559876543>");
}

#[test]
fn example_scenario() {
    let cf = CallFile {
        channel: "SIP/trunk1/5551234567".into(),
        caller_id: CallerId::new("5559876543".into(), Some("Jane".into())),
        wait_time_secs: Some(30),
        max_retries: None,
        retry_time_secs: None,
        account: None,
    };

    assert_eq!(
        cf.to_text(),
        "Channel: SIP/trunk1/5551234567\r\nCallerID: \"'Jane' <5559876543>\"\r\nWaitTime: 30\r\n"
    );
}

#[test]
fn all_fields_in_fixed_order() {
    let cf = CallFile {
        channel: "Local/100@from-internal".into(),
        caller_id: CallerId::new("100".into(), Some("Desk".into())),
        wait_time_secs: Some(45),
        max_retries: Some(2),
        retry_time_secs: Some(300),
        account: Some("billing-7".into()),
    };

    assert_eq!(
        cf.to_text(),
        "Channel: Local/100@from-internal\r\n\
         CallerID: \"'Desk' <100>\"\r\n\
         WaitTime: 45\r\n\
         MaxRetries: 2\r\n\
         RetryTime: 300\r\n\
         Account: billing-7\r\n"
    );
}

#[test]
fn serialization_is_idempotent() {
    let cf = CallFile {
        channel: "SIP/trunk1/5551234567".into(),
        caller_id: CallerId::new("5559876543".into(), Some("Jane".into())),
        wait_time_secs: Some(30),
        max_retries: Some(1),
        retry_time_secs: Some(60),
        account: Some("ops".into()),
    };

    assert_eq!(cf.to_text(), cf.to_text());
}

#[test]
fn negative_integers_render_with_minus() {
    let cf = CallFile {
        channel: "SIP/t/1".into(),
        caller_id: CallerId::new("1".into(), None),
        wait_time_secs: Some(-30),
        max_retries: Some(-1),
        retry_time_secs: Some(-12345),
        account: None,
    };

    assert_eq!(
        cf.to_text(),
        "Channel: SIP/t/1\r\n\
         CallerID: \"<1>\"\r\n\
         WaitTime: -30\r\n\
         MaxRetries: -1\r\n\
         RetryTime: -12345\r\n"
    );
}

#[test]
fn integer_extremes_render_exactly() {
    let cf = CallFile {
        channel: "SIP/t/1".into(),
        caller_id: CallerId::new("1".into(), None),
        wait_time_secs: Some(i16::MIN),
        max_retries: Some(i16::MAX),
        retry_time_secs: Some(0),
        account: None,
    };

    assert_eq!(
        cf.to_text(),
        "Channel: SIP/t/1\r\n\
         CallerID: \"<1>\"\r\n\
         WaitTime: -32768\r\n\
         MaxRetries: 32767\r\n\
         RetryTime: 0\r\n"
    );
}

#[test]
fn new_stores_fields_as_given() {
    let cid = CallerId::new("123".into(), Some("A".into()));
    assert_eq!(cid.num, "123");
    assert_eq!(cid.name, Some("A".to_owned()));

    let cid = CallerId::new("123".into(), None);
    assert_eq!(cid.name, None);
}

use fluvio_web::counter::decimal::format_i32;
use fluvio_web::counter::widget::{
    count_display, counter_settings, counter_setup_error, ConsumerStart, dashboard_url, mount_attributes, next_count, Count, CountFeed,
};

#[test]
fn decimal_text() {
    assert_eq!(format_i32(0), "0");
    assert_eq!(format_i32(7), "7");
    assert_eq!(format_i32(10), "10");
    assert_eq!(format_i32(-42), "-42");
    assert_eq!(format_i32(i32::MAX), i32::MAX.to_string());
    assert_eq!(format_i32(i32::MIN), "-2147483648");
}

#[test]
fn increment_record() {
    let c = next_count(41);
    assert_eq!(c.value, 42);
    assert_eq!(c.label, "");
    assert_eq!(c.description, "");
    assert_eq!(next_count(-1).value, 0);
}

#[test]
fn sent_count_is_shown() {
    let sent = next_count(5);
    let shown = count_display(CountFeed::Record(Ok(sent)));
    assert_eq!(shown.text, "Count: 6");
    assert_eq!(shown.state, Some(6));
}

#[test]
fn display_messages() {
    let d = count_display(CountFeed::NoConsumer);
    assert_eq!(d.text, "Fluvio consumer not yet established. Does the topic exist?");
    assert_eq!(d.state, None);
    let d = count_display(CountFeed::NoRecord);
    assert_eq!(d.text, "No count returned from topic, try incrementing!");
    let d = count_display(CountFeed::ReadError);
    assert_eq!(d.text, "No count returned from topic, try incrementing!");
    assert_eq!(d.state, None);
    let d = count_display(CountFeed::Record(Err("eof".to_string())));
    assert_eq!(d.text, "Failed to parse count");
    assert_eq!(d.state, None);
    let d = count_display(CountFeed::Record(Ok(Count {
        value: -3,
        label: "l".to_string(),
        description: "d".to_string(),
    })));
    assert_eq!(d.text, "Count: -3");
    assert_eq!(d.state, Some(-3));
}

#[test]
fn dashboard_url_parses_or_reports() {
    let u = dashboard_url("ws://localhost:8000/ws/?token=abc").unwrap();
    assert_eq!(u.as_str(), "ws://localhost:8000/ws/?token=abc");
    assert_eq!(dashboard_url("garbage").unwrap_err(), "Failed to get websocket url from dashboard");
}

#[test]
fn mount_needs_both_attributes() {
    assert_eq!(
        mount_attributes(Some("ws://h/ws/".to_string()), Some("my-counter".to_string())),
        Ok(("ws://h/ws/".to_string(), "my-counter".to_string()))
    );
    assert_eq!(
        mount_attributes(None, None),
        Err("Failed to get fluvio-url attribute from web component".to_string())
    );
    assert_eq!(
        mount_attributes(None, Some("t".to_string())),
        Err("Failed to get fluvio-url attribute from web component".to_string())
    );
    assert_eq!(
        mount_attributes(Some("u".to_string()), None),
        Err("Failed to get topic attribute from web component".to_string())
    );
}

#[test]
fn counter_setup_reports_producer_first() {
    assert_eq!(counter_setup_error(Ok(()), true), None);
    assert_eq!(
        counter_setup_error(Ok(()), false),
        Some("Failed to create consumer config.".to_string())
    );
    assert_eq!(
        counter_setup_error(Err("MissingField".to_string()), false),
        Some("Failed to create producer: MissingField".to_string())
    );
}

#[test]
fn counter_settings_send_at_once_and_read_from_end() {
    let settings = counter_settings("my-counter");
    assert_eq!(settings.producer_linger_millis, 0);
    assert_eq!(settings.topic, "my-counter");
    assert!(matches!(settings.consumer_start, ConsumerStart::End));
}

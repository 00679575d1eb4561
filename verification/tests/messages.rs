use nonap::msg::{decimal_string, failure_message, sleep_message, success_message};

#[test]
fn decimal_rendering_exact_values() {
    assert_eq!(decimal_string(0), "0");
    assert_eq!(decimal_string(7), "7");
    assert_eq!(decimal_string(42), "42");
    assert_eq!(decimal_string(1000), "1000");
    assert_eq!(decimal_string(u64::MAX), "18446744073709551615");
}

#[test]
fn sleep_message_exact_value() {
    assert_eq!(
        sleep_message("https://a.example", 3),
        "Sleeping 3 minutes before pinging https://a.example"
    );
}

#[test]
fn success_message_exact_value() {
    assert_eq!(success_message("https://a.example", 503), "https://a.example responded with status 503");
}

#[test]
fn failure_message_exact_value() {
    assert_eq!(
        failure_message("https://a.example", "timed out"),
        "Failed to ping https://a.example: timed out"
    );
}

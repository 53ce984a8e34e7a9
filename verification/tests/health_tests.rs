use dockyard::compose::{ComposeHealthcheck, HealthcheckTest};
use dockyard::health::{
    duration_to_nanos, get_health_config, health_check_in_range, is_duration_in_range,
    nanos_from_parsed,
};

fn check(test: Option<HealthcheckTest>) -> ComposeHealthcheck {
    ComposeHealthcheck {
        test,
        interval: Some("10s".to_string()),
        timeout: Some("1m 30s".to_string()),
        retries: 3,
        start_period: None,
        start_interval: Some("500ms".to_string()),
        disable: false,
    }
}

#[test]
fn durations_in_nanoseconds() {
    assert_eq!(duration_to_nanos("5s").unwrap(), 5_000_000_000);
    assert_eq!(duration_to_nanos("1m").unwrap(), 60_000_000_000);
    assert_eq!(duration_to_nanos("1m 30s").unwrap(), 90_000_000_000);
    assert_eq!(duration_to_nanos("250ms").unwrap(), 250_000_000);
}

#[test]
fn bad_durations_carry_the_parser_message() {
    assert_eq!(duration_to_nanos("").unwrap_err().message, "value was empty");
    assert_eq!(
        duration_to_nanos("5").unwrap_err().message,
        "time unit needed, for example 5sec or 5ms"
    );
}

#[test]
fn parsed_nanoseconds_become_i64() {
    assert_eq!(nanos_from_parsed(Ok(7)).unwrap(), 7);
    assert_eq!(nanos_from_parsed(Err("nope".to_string())).unwrap_err().message, "nope");
}

#[test]
fn health_config_of_a_check() {
    let c = get_health_config(&check(Some(HealthcheckTest::Single("curl -f x".to_string()))))
        .unwrap();
    assert_eq!(c.test, Some(vec!["curl -f x".to_string()]));
    assert_eq!(c.interval, Some(10_000_000_000));
    assert_eq!(c.timeout, Some(90_000_000_000));
    assert_eq!(c.retries, Some(3));
    assert_eq!(c.start_period, None);
    assert_eq!(c.start_interval, Some(500_000_000));

    let many = vec!["CMD".to_string(), "true".to_string()];
    let c = get_health_config(&check(Some(HealthcheckTest::Multiple(many.clone())))).unwrap();
    assert_eq!(c.test, Some(many));
    let c = get_health_config(&check(None)).unwrap();
    assert_eq!(c.test, None);
}

#[test]
fn first_bad_duration_is_reported() {
    let mut h = check(None);
    h.timeout = Some("".to_string());
    h.start_period = Some("5".to_string());
    assert_eq!(get_health_config(&h).err().unwrap().message, "value was empty");
    h.timeout = None;
    assert_eq!(
        get_health_config(&h).err().unwrap().message,
        "time unit needed, for example 5sec or 5ms"
    );
}

#[test]
fn durations_that_can_overflow_are_out_of_range() {
    assert!(is_duration_in_range("1m 30s"));
    assert!(is_duration_in_range("12345678901ns"));
    assert!(is_duration_in_range("123456789012ns"));
    assert!(is_duration_in_range("1000000000000ns"));
    assert!(is_duration_in_range("000000000005s"));
    assert!(is_duration_in_range("5"));
    assert!(is_duration_in_range("1.5h 3 0m"));
    assert!(!is_duration_in_range("18446744073709551615s 1000ms"));
    assert!(!is_duration_in_range("584942417355y"));
    assert!(is_duration_in_range("99999999999999999999999ns"));
    assert_eq!(
        duration_to_nanos("99999999999999999999999ns").unwrap_err().message,
        "number is too large or cannot be represented without a lack of precision (values below 1ns are not supported)"
    );
    assert_eq!(duration_to_nanos("1000000000000ns").unwrap(), 1_000_000_000_000);
    assert_eq!(duration_to_nanos("000000000005s").unwrap(), 5_000_000_000);
    let mut h = check(None);
    assert!(health_check_in_range(&h));
    h.start_period = Some("99999999999999999999s".to_string());
    assert!(!health_check_in_range(&h));
}

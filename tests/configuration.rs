use std::time::Duration;
use udp_prober::args::{build_configuration, parse_targets, Error, Interval, ProbeTarget};

fn duration_of(interval: Interval) -> Duration {
    Duration::new(interval.secs, interval.nanos)
}

fn strings(values: &[&str]) -> Vec<String> {
    values.iter().map(|v| v.to_string()).collect()
}

#[test]
fn parse_first_target() {
    let address = "lorem";
    let statsd_key = "ipsum";
    let arg = build_configuration("1s", strings(&[address, statsd_key])).unwrap();
    assert_eq!(
        arg.targets[0],
        ProbeTarget {
            address: address.to_string(),
            statsd_key: statsd_key.to_string(),
        }
    )
}

#[test]
fn parse_next_target() {
    let address = "dolor";
    let statsd_key = "amet";
    let arg = build_configuration("1s", strings(&["a", "b", address, statsd_key])).unwrap();
    assert_eq!(
        arg.targets[1],
        ProbeTarget {
            address: address.to_string(),
            statsd_key: statsd_key.to_string(),
        }
    )
}

#[test]
fn duration() {
    let arg = build_configuration("500ms", vec![]).unwrap();
    assert_eq!(duration_of(arg.interval), Duration::from_millis(500))
}

#[test]
fn duration_in_seconds() {
    let arg = build_configuration("2s", vec![]).unwrap();
    assert_eq!(duration_of(arg.interval), Duration::from_secs(2));
    assert!(arg.targets.is_empty());
}

#[test]
fn invalid_duration_is_refused() {
    let r = build_configuration("soon", strings(&["a", "b"]));
    assert!(matches!(r, Err(Error::ParseDuration { .. })));
}

#[test]
fn targets_in_order() {
    let targets = parse_targets(strings(&["127.0.0.1:9999", "app.heartbeat", "[::1]:8125", "x"]));
    assert_eq!(
        targets,
        vec![
            ProbeTarget {
                address: "127.0.0.1:9999".to_string(),
                statsd_key: "app.heartbeat".to_string(),
            },
            ProbeTarget {
                address: "[::1]:8125".to_string(),
                statsd_key: "x".to_string(),
            },
        ]
    );
}

#[test]
fn address_without_key_is_left_out() {
    let targets = parse_targets(strings(&["a", "b", "c"]));
    assert_eq!(targets.len(), 1);
    assert_eq!(targets[0].address, "a");
    assert_eq!(targets[0].statsd_key, "b");
}

#[test]
fn no_target_values() {
    assert!(parse_targets(vec![]).is_empty());
}

#[test]
fn default_interval_text() {
    let arg = build_configuration("1s", vec![]).unwrap();
    assert_eq!(arg.interval, Interval { secs: 1, nanos: 0 });
    assert!(arg.targets.is_empty());
}

#[test]
fn compound_interval() {
    let arg = build_configuration("2h 37min 4.2s", vec![]).unwrap();
    assert_eq!(arg.interval, Interval { secs: 9424, nanos: 200_000_000 });
}

#[test]
fn interval_with_too_many_digits_is_refused() {
    let r = build_configuration("18446744073709551615s 1000000000ns", vec![]);
    assert!(matches!(r, Err(Error::IntervalTooLong)));
    let r = build_configuration("18446744073709551615s 0.5s 0.5s", vec![]);
    assert!(matches!(r, Err(Error::IntervalTooLong)));
    let r = build_configuration("123456789012ms", vec![]);
    assert!(matches!(r, Err(Error::IntervalTooLong)));
}

#[test]
fn eleven_digits_are_accepted() {
    let arg = build_configuration("12345678901ms", vec![]).unwrap();
    assert_eq!(duration_of(arg.interval), Duration::from_millis(12_345_678_901));
}

#[test]
fn digits_are_counted() {
    assert_eq!(udp_prober::args::count_digits("1h 30m"), 3);
    assert_eq!(udp_prober::args::count_digits("µs"), 0);
    assert_eq!(udp_prober::args::count_digits(""), 0);
}

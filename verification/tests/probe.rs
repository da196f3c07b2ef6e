use monitr::probe::{interpret_probe, parse_decimal_micros, parse_latency_micros};
use monitr::records::ProbeOutcome;

#[test]
fn latency_from_typical_probe_line() {
    let out = b"64 bytes from 1.1.1.1: icmp_seq=1 ttl=59 time=13.482 ms";
    assert_eq!(parse_latency_micros(out), Some(13482));
}

#[test]
fn latency_from_multiline_output() {
    let out = b"PING 1.1.1.1 (1.1.1.1) 56(84) bytes of data.\n64 bytes from 1.1.1.1: icmp_seq=1 ttl=59 time=12.3 ms\n\n--- 1.1.1.1 ping statistics ---\n";
    assert_eq!(parse_latency_micros(out), Some(12300));
}

#[test]
fn latency_takes_first_token() {
    let out = b"a time=1.5 ms\nb time=9.9 ms\n";
    assert_eq!(parse_latency_micros(out), Some(1500));
}

#[test]
fn latency_absent_without_token() {
    let out = b"PING 1.1.1.1 (1.1.1.1) 56(84) bytes of data.\n--- statistics ---\n";
    assert_eq!(parse_latency_micros(out), None);
}

#[test]
fn latency_absent_on_empty_output() {
    assert_eq!(parse_latency_micros(b""), None);
}

#[test]
fn latency_token_at_end_of_output() {
    assert_eq!(parse_latency_micros(b"time=7"), Some(7000));
}

#[test]
fn decimal_whole_milliseconds() {
    assert_eq!(parse_decimal_micros(b"12"), Some(12000));
    assert_eq!(parse_decimal_micros(b"0"), Some(0));
}

#[test]
fn decimal_fractions_pad_and_truncate() {
    assert_eq!(parse_decimal_micros(b"0.5"), Some(500));
    assert_eq!(parse_decimal_micros(b"1.25"), Some(1250));
    assert_eq!(parse_decimal_micros(b"1.2345"), Some(1234));
    assert_eq!(parse_decimal_micros(b"13."), Some(13000));
    assert_eq!(parse_decimal_micros(b".25"), Some(250));
}

#[test]
fn decimal_rejects_malformed_tokens() {
    assert_eq!(parse_decimal_micros(b""), None);
    assert_eq!(parse_decimal_micros(b"."), None);
    assert_eq!(parse_decimal_micros(b"abc"), None);
    assert_eq!(parse_decimal_micros(b"1.2.3"), None);
    assert_eq!(parse_decimal_micros(b"-1"), None);
    assert_eq!(parse_decimal_micros(b"1e3"), None);
}

#[test]
fn decimal_rejects_values_beyond_range() {
    assert_eq!(parse_decimal_micros(b"99999999999999999999999999"), None);
}

#[test]
fn probe_process_failure_is_typed() {
    let r = interpret_probe("1.1.1.1", false, b"", "network unreachable");
    assert_eq!(
        r,
        ProbeOutcome::ProcessFailed(String::from("network unreachable"))
    );
}

#[test]
fn probe_success_with_latency() {
    let out = b"64 bytes from 1.1.1.1: icmp_seq=1 ttl=59 time=13.482 ms";
    let r = interpret_probe("1.1.1.1", true, out, "");
    match r {
        ProbeOutcome::Latency(p) => {
            assert_eq!(p.host, "1.1.1.1");
            assert_eq!(p.time_micros, 13482);
        }
        other => panic!("expected a latency, got {:?}", other),
    }
}

#[test]
fn probe_success_without_token_is_not_found() {
    let r = interpret_probe("1.1.1.1", true, b"no token here", "");
    assert_eq!(r, ProbeOutcome::NotFound);
}

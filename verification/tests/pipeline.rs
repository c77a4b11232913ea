use clean_dns::codec::channel_is_supported;
use clean_dns::codec::decode;
use clean_dns::codec::decode_connection;
use clean_dns::codec::decode_query;
use clean_dns::codec::ConnectionRecord;
use clean_dns::codec::ProtocolError;
use clean_dns::codec::QueryRecord;
use clean_dns::control::multiplex_step;
use clean_dns::control::process_batch;
use clean_dns::control::startup_gate;
use clean_dns::control::Event;
use clean_dns::control::Outcome;
use clean_dns::control::StartupDecision;
use clean_dns::present::ipv4_string;
use clean_dns::present::render;
use clean_dns::present::u8_decimal;
use clean_dns::present::verdict_str;

#[test]
fn decode_allowed_record() {
    let bytes: Vec<u8> = vec![1, 0, 0, 0, 192, 168, 1, 10];
    let rec = decode("connections", &bytes).unwrap();
    assert_eq!(rec, ConnectionRecord { allowed: 1, source_ip: 0xC0A8_010A });
}

#[test]
fn decode_dropped_record() {
    let bytes: Vec<u8> = vec![0, 0, 0, 0, 10, 0, 0, 2];
    let rec = decode("connections", &bytes).unwrap();
    assert_eq!(rec, ConnectionRecord { allowed: 0, source_ip: 0x0A00_0002 });
}

#[test]
fn decode_reads_allowed_word_least_significant_first() {
    let bytes: Vec<u8> = vec![0, 1, 0, 0, 10, 0, 0, 2];
    let rec = decode_connection(&bytes).unwrap();
    assert_eq!(rec.allowed, 0x100);
}

#[test]
fn decode_truncated_record() {
    let bytes: Vec<u8> = vec![1, 0, 0, 0, 192, 168, 1];
    assert_eq!(decode("connections", &bytes), Err(ProtocolError::TruncatedRecord));
    let empty: Vec<u8> = vec![];
    assert_eq!(decode("connections", &empty), Err(ProtocolError::TruncatedRecord));
}

#[test]
fn decode_unknown_channel() {
    let bytes: Vec<u8> = vec![1, 0, 0, 0, 192, 168, 1, 10];
    assert_eq!(decode("query", &bytes), Err(ProtocolError::UnknownChannel));
    assert_eq!(decode("Connections", &bytes), Err(ProtocolError::UnknownChannel));
    assert_eq!(decode("", &bytes), Err(ProtocolError::UnknownChannel));
}

#[test]
fn supported_channel_set_is_exactly_connections() {
    assert!(channel_is_supported("connections"));
    assert!(!channel_is_supported("query"));
    assert!(!channel_is_supported("connection"));
    assert!(!channel_is_supported(""));
}

#[test]
fn decode_query_record_layout() {
    let bytes: Vec<u8> = vec![1, 2, 3, 4, 5, 6, 7, 8];
    let rec = decode_query(&bytes).unwrap();
    assert_eq!(rec, QueryRecord { count_block: 0x0807_0605_0403_0201 });
    let short: Vec<u8> = vec![1, 2, 3, 4, 5, 6, 7];
    assert_eq!(decode_query(&short), Err(ProtocolError::TruncatedRecord));
}

#[test]
fn dotted_quad_of_raw_bytes() {
    let bytes: Vec<u8> = vec![1, 0, 0, 0, 192, 168, 1, 10];
    let rec = decode_connection(&bytes).unwrap();
    assert_eq!(ipv4_string(rec.source_ip), "192.168.1.10");
}

#[test]
fn dotted_quad_edges() {
    assert_eq!(ipv4_string(0), "0.0.0.0");
    assert_eq!(ipv4_string(0xFFFF_FFFF), "255.255.255.255");
    assert_eq!(ipv4_string(0x0100_00FF), "1.0.0.255");
}

#[test]
fn decimal_text_of_bytes() {
    assert_eq!(u8_decimal(0), "0");
    assert_eq!(u8_decimal(7), "7");
    assert_eq!(u8_decimal(10), "10");
    assert_eq!(u8_decimal(99), "99");
    assert_eq!(u8_decimal(100), "100");
    assert_eq!(u8_decimal(255), "255");
}

#[test]
fn verdict_word_is_allowed_only_for_one() {
    assert_eq!(verdict_str(1), "Allowed");
    assert_eq!(verdict_str(0), "Drop");
    assert_eq!(verdict_str(2), "Drop");
    assert_eq!(verdict_str(0xFFFF_FFFF), "Drop");
}

#[test]
fn rendered_lines() {
    let allowed = ConnectionRecord { allowed: 1, source_ip: 0x0A00_0001 };
    assert_eq!(render(&allowed), "Allowed dns from 10.0.0.1");
    let dropped = ConnectionRecord { allowed: 0, source_ip: 0xC0A8_010A };
    assert_eq!(render(&dropped), "Drop dns from 192.168.1.10");
}

#[test]
fn presenter_order_over_two_batches() {
    let first = Event::Batch {
        channel: "connections".to_string(),
        records: vec![vec![1, 0, 0, 0, 10, 0, 0, 1], vec![0, 0, 0, 0, 10, 0, 0, 2]],
    };
    let second = Event::Batch {
        channel: "connections".to_string(),
        records: vec![vec![1, 0, 0, 0, 192, 168, 1, 10]],
    };
    let mut lines: Vec<String> = Vec::new();
    let step = multiplex_step(&first);
    assert_eq!(step.outcome, Outcome::Continue);
    lines.extend(step.lines);
    let step = multiplex_step(&second);
    assert_eq!(step.outcome, Outcome::Continue);
    lines.extend(step.lines);
    assert_eq!(
        lines,
        vec![
            "Allowed dns from 10.0.0.1".to_string(),
            "Drop dns from 10.0.0.2".to_string(),
            "Allowed dns from 192.168.1.10".to_string(),
        ]
    );
}

#[test]
fn batch_stops_at_first_protocol_error() {
    let records: Vec<Vec<u8>> = vec![
        vec![1, 0, 0, 0, 10, 0, 0, 1],
        vec![9, 9],
        vec![1, 0, 0, 0, 10, 0, 0, 3],
    ];
    let (lines, err) = process_batch("connections", &records);
    assert_eq!(lines, vec!["Allowed dns from 10.0.0.1".to_string()]);
    assert_eq!(err, Some(ProtocolError::TruncatedRecord));
}

#[test]
fn batch_on_unknown_channel_aborts() {
    let ev = Event::Batch {
        channel: "query".to_string(),
        records: vec![vec![1, 0, 0, 0, 10, 0, 0, 1]],
    };
    let step = multiplex_step(&ev);
    assert!(step.lines.is_empty());
    assert_eq!(step.outcome, Outcome::Abort(ProtocolError::UnknownChannel));
    assert_ne!(step.outcome.exit_code(), 0);
}

#[test]
fn interrupt_shuts_down_cleanly() {
    let step = multiplex_step(&Event::Interrupt);
    assert!(step.lines.is_empty());
    assert_eq!(step.outcome, Outcome::ShutdownOk);
    assert_eq!(step.outcome.exit_code(), 0);
}

#[test]
fn exhausted_source_stops_quietly() {
    let step = multiplex_step(&Event::Exhausted);
    assert!(step.lines.is_empty());
    assert_eq!(step.outcome, Outcome::Stop);
    assert_eq!(step.outcome.exit_code(), 0);
}

#[test]
fn missing_interface_exits_before_privilege_and_load() {
    let unprivileged = startup_gate(true, false, None, false);
    assert!(matches!(unprivileged, StartupDecision::ExitUsage));
    assert_eq!(unprivileged.exit_code(), 1);
    let privileged = startup_gate(true, false, None, true);
    assert!(matches!(privileged, StartupDecision::ExitUsage));
    assert_eq!(privileged.exit_code(), 1);
}

#[test]
fn empty_interface_is_rejected_as_usage_error() {
    let d = startup_gate(true, false, Some(String::new()), true);
    assert!(matches!(d, StartupDecision::ExitUsage));
}

#[test]
fn help_and_parse_failure_exit_with_usage() {
    let help = startup_gate(true, true, Some("eth0".to_string()), true);
    assert!(matches!(help, StartupDecision::ExitUsage));
    let bad = startup_gate(false, false, Some("eth0".to_string()), true);
    assert!(matches!(bad, StartupDecision::ExitUsage));
}

#[test]
fn unprivileged_start_never_reaches_load() {
    let d = startup_gate(true, false, Some("eth0".to_string()), false);
    assert!(matches!(d, StartupDecision::ExitPrivilege));
    assert!(!matches!(d, StartupDecision::Proceed(_)));
    assert_ne!(d.exit_code(), 0);
}

#[test]
fn privileged_start_proceeds_with_interface() {
    let d = startup_gate(true, false, Some("eth0".to_string()), true);
    match d {
        StartupDecision::Proceed(o) => assert_eq!(o.interface, "eth0"),
        _ => panic!("startup should proceed"),
    }
}

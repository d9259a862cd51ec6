use loggen::generator::generate_logs;
use loggen::record::log_for_id;
use loggen::tables::country_at;
use loggen::tables::label_at;
use loggen::tables::message_at;
use loggen::text::contains_str;
use loggen::text::decimal_string;
use loggen::text::metadata_string;

const FIRST_MESSAGE: &str = "The research team discovered a new species of deep-sea creature while conducting experiments near hydrothermal vents in the dark ocean depths.";
const BASE_TIMESTAMP: u64 = 1577836800;

#[test]
fn first_record_fields() {
    let r = log_for_id(0);
    assert_eq!(r.id, 0);
    assert_eq!(r.message, FIRST_MESSAGE);
    assert_eq!(r.country, "United States");
    assert_eq!(r.severity, 1);
    assert_eq!(r.timestamp, BASE_TIMESTAMP);
    assert_eq!(r.metadata, "{\"value\":1,\"label\":\"critical system alert\"}");
}

#[test]
fn severity_follows_formula() {
    for id in 0..25u64 {
        let r = log_for_id(id);
        assert_eq!(r.severity, (id % 5) as i32 + 1);
        assert!(r.severity >= 1 && r.severity <= 5);
    }
}

#[test]
fn timestamp_follows_formula() {
    for id in [0u64, 1, 5, 730, 731, 732, 1461, 1462, 999_999] {
        let r = log_for_id(id);
        assert_eq!(r.timestamp, BASE_TIMESTAMP + 86400 * (id % 731));
        assert!(r.timestamp >= BASE_TIMESTAMP);
        assert!(r.timestamp <= BASE_TIMESTAMP + 86400 * 730);
    }
}

#[test]
fn metadata_cycles_value_and_label() {
    let r999 = log_for_id(999);
    assert_eq!(r999.metadata, "{\"value\":1000,\"label\":\"authentication event\"}");
    let r1000 = log_for_id(1000);
    assert_eq!(r1000.metadata, "{\"value\":1,\"label\":\"critical system alert\"}");
    let r5 = log_for_id(5);
    assert_eq!(r5.metadata, "{\"value\":6,\"label\":\"system status\"}");
    let r8 = log_for_id(8);
    assert_eq!(r8.metadata, "{\"value\":9,\"label\":\"database operation\"}");
    let r18 = log_for_id(18);
    assert_eq!(r18.metadata, "{\"value\":19,\"label\":\"database operation\"}");
}

#[test]
fn message_and_country_cycle() {
    let r12 = log_for_id(12);
    assert_eq!(r12.message, message_at(2));
    assert_eq!(r12.country, "United Kingdom");
    let r20 = log_for_id(20);
    assert_eq!(r20.message, FIRST_MESSAGE);
    assert_eq!(r20.country, "United States");
}

#[test]
fn generation_is_replayable() {
    let mut g1 = generate_logs(100);
    let mut g2 = generate_logs(100);
    let mut count = 0u64;
    loop {
        let a = g1.next();
        let b = g2.next();
        match (a, b) {
            (Some(x), Some(y)) => {
                assert_eq!(x.id, y.id);
                assert_eq!(x.message, y.message);
                assert_eq!(x.country, y.country);
                assert_eq!(x.severity, y.severity);
                assert_eq!(x.timestamp, y.timestamp);
                assert_eq!(x.metadata, y.metadata);
                count += 1;
            }
            (None, None) => break,
            _ => panic!("the two runs diverged"),
        }
    }
    assert_eq!(count, 100);
}

#[test]
fn generator_yields_exactly_n_in_order() {
    let mut g = generate_logs(23);
    let mut expected: u64 = 0;
    while let Some(r) = g.next() {
        assert_eq!(r.id, expected);
        expected += 1;
    }
    assert_eq!(expected, 23);
    assert!(g.next().is_none());
}

#[test]
fn decimal_rendering_is_exact() {
    assert_eq!(decimal_string(0), "0");
    assert_eq!(decimal_string(7), "7");
    assert_eq!(decimal_string(10), "10");
    assert_eq!(decimal_string(42), "42");
    assert_eq!(decimal_string(1000), "1000");
    assert_eq!(decimal_string(u64::MAX), "18446744073709551615");
}

#[test]
fn metadata_string_is_exact() {
    assert_eq!(
        metadata_string(17, "network event"),
        "{\"value\":17,\"label\":\"network event\"}"
    );
}

#[test]
fn substring_containment() {
    assert!(contains_str(FIRST_MESSAGE, "research"));
    assert!(contains_str(FIRST_MESSAGE, "team"));
    assert!(contains_str("hello", "ell"));
    assert!(contains_str("abc", ""));
    assert!(contains_str("", ""));
    assert!(contains_str("aaab", "aab"));
    assert!(!contains_str("abc", "abcd"));
    assert!(!contains_str("", "x"));
    assert!(!contains_str(message_at(1), "team"));
}

#[test]
fn tables_first_entries() {
    assert_eq!(country_at(0), "United States");
    assert_eq!(country_at(9), "China");
    assert_eq!(label_at(0), "critical system alert");
    assert_eq!(label_at(9), "authentication event");
    assert!(message_at(0).starts_with("The research team"));
}

#[test]
fn label_table_has_ten_distinct_entries() {
    let expected = [
        "critical system alert",
        "routine maintenance",
        "security notification",
        "performance metric",
        "user activity",
        "system status",
        "network event",
        "application log",
        "database operation",
        "authentication event",
    ];
    for k in 0..10u64 {
        assert_eq!(label_at(k), expected[k as usize]);
    }
    for k in 0..10usize {
        for j in 0..k {
            assert_ne!(expected[j], expected[k]);
        }
    }
}

use canvas_syncer::util::{
    parse_size_rule, parse_size_string, size_action_of_lowercase, split_size_string, SizeAction,
    SizeAmount, SizeOperator, SizeUnit,
};

fn bytes_of(a: &SizeAmount) -> Option<u64> {
    let n = a.number.parse::<f64>().ok()?;
    let bytes = match a.unit {
        SizeUnit::Gigabytes => n * 1024.0 * 1024.0 * 1024.0,
        SizeUnit::Megabytes => n * 1024.0 * 1024.0,
        SizeUnit::Kilobytes => n * 1024.0,
        SizeUnit::Bytes => n,
    };
    Some(bytes as u64)
}

#[test]
fn size_texts_split_into_number_and_unit() {
    let a = split_size_string("  10MB ");
    assert_eq!(a.number, "10");
    assert_eq!(a.unit, SizeUnit::Megabytes);
    let a = split_size_string("1.5 gb");
    assert_eq!(a.number, "1.5");
    assert_eq!(a.unit, SizeUnit::Gigabytes);
    let a = split_size_string("42");
    assert_eq!(a.number, "42");
    assert_eq!(a.unit, SizeUnit::Bytes);
    let a = split_size_string("5GBGB");
    assert_eq!(a.number, "5");
    assert_eq!(a.unit, SizeUnit::Gigabytes);
    let a = split_size_string("5Gb");
    assert_eq!(a.number, "5G");
    assert_eq!(a.unit, SizeUnit::Bytes);
    let a = split_size_string("\u{3000}7kb\u{a0}");
    assert_eq!(a.number, "7");
    assert_eq!(a.unit, SizeUnit::Kilobytes);
}

#[test]
fn size_texts_in_bytes() {
    assert_eq!(parse_size_string("10MB", &bytes_of), Some(10 * 1024 * 1024));
    assert_eq!(parse_size_string(" 1.5 GB ", &bytes_of), Some(1610612736));
    assert_eq!(parse_size_string("512", &bytes_of), Some(512));
    assert_eq!(parse_size_string("5kb", &bytes_of), Some(5120));
    assert_eq!(parse_size_string("100b", &bytes_of), Some(100));
    assert_eq!(parse_size_string("abc", &bytes_of), None);
    assert_eq!(parse_size_string("5Gb", &bytes_of), None);
    assert_eq!(parse_size_string("", &bytes_of), None);
}

#[test]
fn action_words() {
    assert_eq!(size_action_of_lowercase("allow"), Some(SizeAction::Allow));
    assert_eq!(size_action_of_lowercase("deny"), Some(SizeAction::Deny));
    assert_eq!(size_action_of_lowercase("Deny"), None);
    assert_eq!(size_action_of_lowercase("block"), None);
}

#[test]
fn size_rules_parse() {
    let r = parse_size_rule("deny: >= 10MB", &bytes_of).unwrap();
    assert_eq!(r.action, SizeAction::Deny);
    assert_eq!(r.operator, SizeOperator::GreaterThanOrEqual);
    assert_eq!(r.size_bytes, 10 * 1024 * 1024);
    let r = parse_size_rule("  ALLOW :<1KB", &bytes_of).unwrap();
    assert_eq!(r.action, SizeAction::Allow);
    assert_eq!(r.operator, SizeOperator::LessThan);
    assert_eq!(r.size_bytes, 1024);
    let r = parse_size_rule("deny: <= 2", &bytes_of).unwrap();
    assert_eq!(r.operator, SizeOperator::LessThanOrEqual);
    assert_eq!(r.size_bytes, 2);
    let r = parse_size_rule("deny: >>5", &bytes_of).unwrap();
    assert_eq!(r.operator, SizeOperator::GreaterThan);
    assert_eq!(r.size_bytes, 5);
    let r = parse_size_rule("deny: > 1: 2", &bytes_of);
    assert!(r.is_none());
}

#[test]
fn malformed_size_rules_give_none() {
    assert!(parse_size_rule("deny >= 5", &bytes_of).is_none());
    assert!(parse_size_rule("block: > 5", &bytes_of).is_none());
    assert!(parse_size_rule("deny: = 5", &bytes_of).is_none());
    assert!(parse_size_rule("deny: >= 10XB", &bytes_of).is_none());
    assert!(parse_size_rule("", &bytes_of).is_none());
}

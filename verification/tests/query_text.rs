use stockbars::query::build;
use stockbars::query::value_field_name;
use stockbars::query::AggregateQuerySpec;
use stockbars::query::Operation;
use stockbars::symbol::SymbolTag;
use stockbars::text::escape_text;
use stockbars::text::i64_to_decimal;

fn tag(s: &str) -> SymbolTag {
    SymbolTag::new(String::from(s)).expect("symbol must be non-empty")
}

#[test]
fn max_query_reads_high_over_half_open_window() {
    let q = AggregateQuerySpec::new(
        Operation::Max,
        tag("MSFT"),
        1_654_819_200_000_000_000,
        1_657_584_000_000_000_000,
    )
    .expect("start precedes end");
    let rendered = build(&q, "prices");
    assert_eq!(
        rendered.text,
        "SELECT MAX(\"high\") FROM \"prices\" WHERE time >= 1654819200000000000 \
         AND time < 1657584000000000000 AND \"symbol\" = 'MSFT'"
    );
    assert_eq!(rendered.op, Operation::Max);
}

#[test]
fn min_query_reads_low() {
    let q = AggregateQuerySpec::new(Operation::Min, tag("MSFT"), 0, 1).expect("start precedes end");
    let rendered = build(&q, "prices");
    assert_eq!(
        rendered.text,
        "SELECT MIN(\"low\") FROM \"prices\" WHERE time >= 0 AND time < 1 AND \"symbol\" = 'MSFT'"
    );
    assert_eq!(rendered.op, Operation::Min);
}

#[test]
fn quoted_symbol_is_escaped_not_structural() {
    let q = AggregateQuerySpec::new(Operation::Max, tag("x' OR '1'='1"), 0, 10)
        .expect("start precedes end");
    let rendered = build(&q, "prices");
    assert_eq!(
        rendered.text,
        "SELECT MAX(\"high\") FROM \"prices\" WHERE time >= 0 AND time < 10 \
         AND \"symbol\" = 'x\\' OR \\'1\\'=\\'1'"
    );
}

#[test]
fn backslash_and_quote_escape_forms() {
    assert_eq!(escape_text("a'b", '\''), "a\\'b");
    assert_eq!(escape_text("a\\b", '\''), "a\\\\b");
    assert_eq!(escape_text("plain", '\''), "plain");
    assert_eq!(escape_text("me\"as", '"'), "me\\\"as");
}

#[test]
fn inverted_or_empty_window_is_rejected() {
    assert!(AggregateQuerySpec::new(Operation::Max, tag("MSFT"), 10, 10).is_err());
    assert!(AggregateQuerySpec::new(Operation::Max, tag("MSFT"), 11, 10).is_err());
    assert!(AggregateQuerySpec::new(Operation::Max, tag("MSFT"), 9, 10).is_ok());
}

#[test]
fn value_field_follows_operation() {
    assert_eq!(value_field_name(Operation::Max), "max");
    assert_eq!(value_field_name(Operation::Min), "min");
}

#[test]
fn decimal_rendering_is_exact() {
    assert_eq!(i64_to_decimal(0), "0");
    assert_eq!(i64_to_decimal(7), "7");
    assert_eq!(i64_to_decimal(1_654_819_200_000_000_000), "1654819200000000000");
    assert_eq!(i64_to_decimal(-42), "-42");
    assert_eq!(i64_to_decimal(i64::MAX), "9223372036854775807");
    assert_eq!(i64_to_decimal(i64::MIN), "-9223372036854775808");
}

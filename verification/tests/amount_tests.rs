use near_cli::amount::NearBalance;

const YOCTO: u128 = 1_000_000_000_000_000_000_000_000;

#[test]
fn parses_bare_number_as_whole_tokens() {
    let b = NearBalance::parse("5").unwrap();
    assert_eq!(b.to_yoctonear(), 5 * YOCTO);
}

#[test]
fn parses_near_suffix_in_any_case() {
    assert_eq!(NearBalance::parse("10NEAR").unwrap().to_yoctonear(), 10 * YOCTO);
    assert_eq!(NearBalance::parse("10near").unwrap().to_yoctonear(), 10 * YOCTO);
    assert_eq!(NearBalance::parse("10 NEAR").unwrap().to_yoctonear(), 10 * YOCTO);
    assert_eq!(NearBalance::parse("10 Near").unwrap().to_yoctonear(), 10 * YOCTO);
}

#[test]
fn parses_fractional_tokens() {
    assert_eq!(NearBalance::parse("0.5near").unwrap().to_yoctonear(), YOCTO / 2);
    assert_eq!(
        NearBalance::parse("1.000000000000000000000001 NEAR").unwrap().to_yoctonear(),
        YOCTO + 1
    );
}

#[test]
fn parses_yocto_suffix() {
    assert_eq!(NearBalance::parse("10000yoctonear").unwrap().to_yoctonear(), 10000);
    assert_eq!(NearBalance::parse("10000 yoctoNEAR").unwrap().to_yoctonear(), 10000);
    assert_eq!(NearBalance::parse("0yoctonear").unwrap().to_yoctonear(), 0);
}

#[test]
fn rejects_malformed_amounts() {
    assert!(NearBalance::parse("").is_none());
    assert!(NearBalance::parse("abc").is_none());
    assert!(NearBalance::parse("1.2.3").is_none());
    assert!(NearBalance::parse(".5").is_none());
    assert!(NearBalance::parse("5.").is_none());
    assert!(NearBalance::parse("5. NEAR").is_none());
    assert!(NearBalance::parse("1.0000000000000000000000001 NEAR").is_none());
    assert!(NearBalance::parse("0.5 yoctonear").is_none());
    assert!(NearBalance::parse("NEAR").is_none());
}

#[test]
fn rejects_amounts_beyond_the_smallest_unit_range() {
    // u128::MAX is about 3.4e38; one more whole token than fits must fail
    assert!(NearBalance::parse("340282367 NEAR").unwrap().to_yoctonear() > 0);
    assert!(NearBalance::parse("340282367000000000000000 NEAR").is_none());
    assert!(NearBalance::parse("340282366920938463463374607431768211455yoctonear").is_some());
    assert!(NearBalance::parse("340282366920938463463374607431768211456yoctonear").is_none());
}

#[test]
fn formats_whole_and_fractional_amounts() {
    assert_eq!(NearBalance::from_yoctonear(5 * YOCTO).to_text(), "5 NEAR");
    assert_eq!(NearBalance::from_yoctonear(0).to_text(), "0 NEAR");
    assert_eq!(NearBalance::from_yoctonear(YOCTO / 2).to_text(), "0.5 NEAR");
    assert_eq!(NearBalance::from_yoctonear(1).to_text(), "0.000000000000000000000001 NEAR");
    assert_eq!(NearBalance::from_yoctonear(YOCTO + 1).to_text(), "1.000000000000000000000001 NEAR");
}

#[test]
fn round_trips_through_the_canonical_notation() {
    for v in [
        0u128,
        1,
        5 * YOCTO,
        YOCTO / 2,
        YOCTO + 1,
        100 * YOCTO,
        u128::MAX,
        123_456_789_000_000_000_000_000_000,
    ] {
        let text = NearBalance::from_yoctonear(v).to_text();
        let back = NearBalance::parse(&text).unwrap();
        assert_eq!(back.to_yoctonear(), v, "{}", text);
    }
}

#[test]
fn compares_amounts_by_value() {
    let a = NearBalance::parse("99 NEAR").unwrap();
    let b = NearBalance::parse("100 NEAR").unwrap();
    assert!(a.le(&b));
    assert!(!b.le(&a));
    assert!(a.le(&a));
}

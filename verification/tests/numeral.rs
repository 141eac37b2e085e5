use leo_passes::Numeral;

fn plus(magnitude: u128) -> Option<Numeral> {
    Some(Numeral { negative: false, magnitude })
}

fn minus(magnitude: u128) -> Option<Numeral> {
    Some(Numeral { negative: true, magnitude })
}

#[test]
fn parse_reads_digits_and_a_sign() {
    assert_eq!(Numeral::parse("0"), plus(0));
    assert_eq!(Numeral::parse("5"), plus(5));
    assert_eq!(Numeral::parse("255"), plus(255));
    assert_eq!(Numeral::parse("007"), plus(7));
    assert_eq!(Numeral::parse("-5"), minus(5));
    assert_eq!(Numeral::parse("-128"), minus(128));
    assert_eq!(Numeral::parse("-0"), minus(0));
    assert_eq!(Numeral::parse("1234567890"), plus(1234567890));
}

#[test]
fn parse_reads_up_to_the_largest_magnitude() {
    assert_eq!(Numeral::parse("340282366920938463463374607431768211455"), plus(u128::MAX));
    assert_eq!(Numeral::parse("-340282366920938463463374607431768211455"), minus(u128::MAX));
    assert_eq!(Numeral::parse("340282366920938463463374607431768211456"), None);
    assert_eq!(Numeral::parse("3402823669209384634633746074317682114550"), None);
    assert_eq!(Numeral::parse("999999999999999999999999999999999999999"), None);
    assert_eq!(Numeral::parse("0000000000000000000000000000000000000000000000001"), plus(1));
}

#[test]
fn parse_refuses_other_text() {
    assert_eq!(Numeral::parse(""), None);
    assert_eq!(Numeral::parse("-"), None);
    assert_eq!(Numeral::parse("+5"), None);
    assert_eq!(Numeral::parse("--5"), None);
    assert_eq!(Numeral::parse("5-"), None);
    assert_eq!(Numeral::parse("1a"), None);
    assert_eq!(Numeral::parse("a1"), None);
    assert_eq!(Numeral::parse(" 1"), None);
    assert_eq!(Numeral::parse("1 "), None);
    assert_eq!(Numeral::parse("1_000"), None);
    assert_eq!(Numeral::parse("5u8"), None);
    assert_eq!(Numeral::parse("/"), None);
    assert_eq!(Numeral::parse(":"), None);
    assert_eq!(Numeral::parse("\u{ff11}\u{ff12}"), None);
    assert_eq!(Numeral::parse("1\u{e9}"), None);
}

#[test]
fn to_text_writes_digits_without_leading_zeros() {
    assert_eq!(Numeral::natural(0).to_text(), "0");
    assert_eq!(Numeral::natural(7).to_text(), "7");
    assert_eq!(Numeral::natural(10).to_text(), "10");
    assert_eq!(Numeral::natural(1234567890).to_text(), "1234567890");
    assert_eq!(Numeral::natural(u128::MAX).to_text(), "340282366920938463463374607431768211455");
    assert_eq!(Numeral::integer(-5).to_text(), "-5");
    assert_eq!(Numeral::integer(i128::MIN).to_text(), "-170141183460469231731687303715884105728");
    assert_eq!(Numeral { negative: true, magnitude: 0 }.to_text(), "-0");
}

#[test]
fn what_is_written_is_read_back() {
    let numerals = [
        Numeral::natural(0),
        Numeral::natural(9),
        Numeral::natural(10),
        Numeral::natural(109),
        Numeral::natural(u128::MAX),
        Numeral::integer(-1),
        Numeral::integer(i128::MIN),
        Numeral { negative: true, magnitude: 0 },
        Numeral { negative: true, magnitude: u128::MAX },
    ];
    for numeral in numerals {
        assert_eq!(Numeral::parse(&numeral.to_text()), Some(numeral));
    }
}

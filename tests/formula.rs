use taxscale::decimal::Decimal;
use taxscale::formula::{Formula, FormulaParseError};

fn constant(text: &str) -> Formula {
    Formula::Const(Decimal::parse(text).unwrap())
}

fn log(f: Formula) -> Formula {
    Formula::Log(Box::new(f))
}

fn add(f: Formula, g: Formula) -> Formula {
    Formula::Add(Box::new(f), Box::new(g))
}

fn sub(f: Formula, g: Formula) -> Formula {
    Formula::Sub(Box::new(f), Box::new(g))
}

fn mul(f: Formula, g: Formula) -> Formula {
    Formula::Mul(Box::new(f), Box::new(g))
}

fn div(f: Formula, g: Formula) -> Formula {
    Formula::Div(Box::new(f), Box::new(g))
}

#[test]
fn parse_formula() {
    assert_eq!(
        Formula::try_from("-0.827429* $wert$ + 0.089718* $wert$ * (log $wert$ - 1) + 829.418770")
            .unwrap(),
        add(
            add(
                mul(constant("-0.827429"), Formula::Input),
                mul(
                    constant("0.089718"),
                    mul(Formula::Input, sub(log(Formula::Input), constant("1.0")))
                )
            ),
            constant("829.41877")
        )
    )
}

#[test]
fn parse_input() {
    assert_eq!(Formula::try_from("$wert$").unwrap(), Formula::Input);
    assert_eq!(Formula::try_from("  $wert$").unwrap(), Formula::Input);
    assert_eq!(Formula::try_from("$wert$  ").unwrap(), Formula::Input);
    assert_eq!(Formula::try_from(" $wert$  ").unwrap(), Formula::Input);
}

#[test]
fn parse_const() {
    assert_eq!(Formula::try_from("100").unwrap(), constant("100.0"));
    assert_eq!(Formula::try_from("12.34").unwrap(), constant("12.34"));
    assert_eq!(Formula::try_from("-42.42").unwrap(), constant("-42.42"));
}

#[test]
fn parse_input_with_tabs_and_newlines() {
    assert_eq!(Formula::try_from("\t\r\n$wert$ \n").unwrap(), Formula::Input);
}

#[test]
fn division_chain_nests_to_the_right() {
    assert_eq!(
        Formula::try_from("$wert$/2/4").unwrap(),
        div(Formula::Input, div(constant("2"), constant("4")))
    );
    assert_ne!(
        Formula::try_from("$wert$/2/4").unwrap(),
        div(div(Formula::Input, constant("2")), constant("4"))
    );
}

#[test]
fn sums_fold_to_the_left() {
    assert_eq!(
        Formula::try_from("1 - 2 - 3").unwrap(),
        sub(sub(constant("1"), constant("2")), constant("3"))
    );
}

#[test]
fn empty_text_is_zero() {
    assert_eq!(Formula::try_from("").unwrap(), constant("0"));
}

#[test]
fn blank_text_is_malformed() {
    assert_eq!(Formula::try_from("   "), Err(FormulaParseError::Malformed));
}

#[test]
fn trailing_text_is_reported_with_its_position() {
    assert_eq!(
        Formula::try_from("$wert$ )"),
        Err(FormulaParseError::Trailing { position: 7 })
    );
    assert_eq!(
        Formula::try_from("2 * x"),
        Err(FormulaParseError::Trailing { position: 2 })
    );
}

#[test]
fn unclosed_parenthesis_is_malformed() {
    assert_eq!(Formula::try_from("(1 + 2"), Err(FormulaParseError::Malformed));
}

#[test]
fn log_of_a_parenthesised_sum() {
    assert_eq!(
        Formula::try_from("log ( $wert$ + 1 )").unwrap(),
        log(add(Formula::Input, constant("1")))
    );
}

#[test]
fn exponent_literals() {
    assert_eq!(Formula::try_from("1.5e3").unwrap(), constant("1500"));
    assert_eq!(Formula::try_from("25E-2").unwrap(), constant("0.25"));
    assert_eq!(Formula::try_from(".5").unwrap(), constant("0.5"));
    assert_eq!(Formula::try_from("5.").unwrap(), constant("5"));
    assert_eq!(Formula::try_from("1e"), Err(FormulaParseError::Malformed));
}

#[test]
fn decimal_is_canonical() {
    let d = Decimal::parse("829.418770").unwrap();
    assert_eq!(d.negative, false);
    assert_eq!(d.mantissa, 82941877);
    assert_eq!(d.exponent, -5);
    assert_eq!(Decimal::parse("-0.0").unwrap(), Decimal::zero());
    assert_eq!(Decimal::parse("1200").unwrap().exponent, 2);
    assert_eq!(Decimal::parse("1200").unwrap().mantissa, 12);
    assert_eq!(Decimal::parse("12 "), None);
    assert_eq!(Decimal::parse("inf"), None);
}

#[test]
fn decimal_threshold() {
    assert!(Decimal::parse("10000000").unwrap().at_least_pow10(7));
    assert!(Decimal::parse("99999999999").unwrap().at_least_pow10(7));
    assert!(!Decimal::parse("9999999.99").unwrap().at_least_pow10(7));
    assert!(!Decimal::parse("-20000000").unwrap().at_least_pow10(7));
    assert!(!Decimal::zero().at_least_pow10(7));
}

#[test]
fn literal_limits() {
    let max = "340282366920938463463374607431768211455";
    assert_eq!(Decimal::parse(max).unwrap().mantissa, u128::MAX);
    assert_eq!(Decimal::parse("340282366920938463463374607431768211456"), None);
    assert_eq!(Decimal::parse("340282366920938463463374607431768211456000"), None);
    assert_eq!(
        Decimal::parse("3402823669209384634633746074317682114550000").unwrap().exponent,
        4
    );
    assert_eq!(Decimal::parse("1e1000000000000000000").unwrap().exponent, 1000000000000000000);
    assert_eq!(Decimal::parse("1e1000000000000000001"), None);
    assert_eq!(Decimal::parse("0.000e-1000000000000000000").unwrap(), Decimal::zero());
}

use primer::double_first::double_first;
use primer::double_first::double_first_v2;
use primer::double_first::double_first_v3;
use primer::double_first::double_first_v4;
use primer::double_first::double_first_v5;
use primer::double_first::double_first_v6;
use primer::double_first::DoubleError;
use primer::double_first::DoubleFirstError;
use primer::multiply::multiply;
use primer::multiply::multiply_v2;
use primer::multiply::multiply_v3;
use primer::multiply::multiply_v4;
use primer::multiply::multiply_v5;
use primer::multiply::multiply_v6;
use primer::parse_int::parse_i32;
use primer::parse_int::ParseIntError;

#[test]
fn parse_plain_number() {
    assert_eq!(parse_i32("10"), Ok(10));
}

#[test]
fn parse_signed_numbers() {
    assert_eq!(parse_i32("+7"), Ok(7));
    assert_eq!(parse_i32("-42"), Ok(-42));
    assert_eq!(parse_i32("0"), Ok(0));
}

#[test]
fn parse_extremes() {
    assert_eq!(parse_i32("2147483647"), Ok(i32::MAX));
    assert_eq!(parse_i32("-2147483648"), Ok(i32::MIN));
}

#[test]
fn parse_empty_string() {
    assert_eq!(parse_i32(""), Err(ParseIntError::Empty));
}

#[test]
fn parse_invalid_digits() {
    assert_eq!(parse_i32("t"), Err(ParseIntError::InvalidDigit));
    assert_eq!(parse_i32("12x"), Err(ParseIntError::InvalidDigit));
    assert_eq!(parse_i32("+"), Err(ParseIntError::InvalidDigit));
    assert_eq!(parse_i32("-"), Err(ParseIntError::InvalidDigit));
    assert_eq!(parse_i32(" 5"), Err(ParseIntError::InvalidDigit));
}

#[test]
fn parse_overflow() {
    assert_eq!(parse_i32("2147483648"), Err(ParseIntError::Overflow));
    assert_eq!(parse_i32("-2147483649"), Err(ParseIntError::Overflow));
    assert_eq!(parse_i32("99999999999999999999"), Err(ParseIntError::Overflow));
}

#[test]
fn parse_leading_zeros() {
    assert_eq!(parse_i32("007"), Ok(7));
    assert_eq!(parse_i32("000000000000000000000042"), Ok(42));
}

#[test]
fn mult_doubles_ten() {
    assert_eq!(multiply("10", "2"), 20);
}

#[test]
fn mult_v2_reports_first_bad_string() {
    assert_eq!(multiply_v2("t", "2"), Err(ParseIntError::InvalidDigit));
    assert_eq!(multiply_v2("10", ""), Err(ParseIntError::Empty));
    assert_eq!(multiply_v2("10", "2"), Ok(20));
}

#[test]
fn mult_all_variants_agree() {
    for (a, b) in [("10", "2"), ("t", "2"), ("-4", "6"), ("", "1")] {
        let expected = multiply_v2(a, b);
        assert_eq!(multiply_v3(a, b), expected);
        assert_eq!(multiply_v4(a, b), expected);
        assert_eq!(multiply_v5(a, b), expected);
        assert_eq!(multiply_v6(a, b), expected);
    }
}

#[test]
fn df_doubles_first() {
    assert_eq!(double_first(vec!["42", "93", "18"]), 84);
}

#[test]
fn df_v2_cases() {
    assert_eq!(double_first_v2(vec!["42", "93", "18"]), Some(Ok(84)));
    assert_eq!(double_first_v2(vec![]), None);
    assert_eq!(
        double_first_v2(vec!["tofu", "93", "18"]),
        Some(Err(ParseIntError::InvalidDigit))
    );
}

#[test]
fn df_v3_cases() {
    assert_eq!(double_first_v3(vec!["42", "93", "18"]), Ok(Some(84)));
    assert_eq!(double_first_v3(vec![]), Ok(None));
    assert_eq!(
        double_first_v3(vec!["tofu", "93", "18"]),
        Err(ParseIntError::InvalidDigit)
    );
}

#[test]
fn df_v4_cases() {
    assert_eq!(double_first_v4(vec!["42", "93", "18"]), Ok(84));
    assert_eq!(double_first_v4(vec![]), Err(DoubleError));
    assert_eq!(double_first_v4(vec!["tofu", "93", "18"]), Err(DoubleError));
}

#[test]
fn df_v5_cases() {
    assert_eq!(double_first_v5(vec!["42", "93", "18"]), Ok(84));
    assert_eq!(double_first_v5(vec![]), Err(DoubleFirstError::EmptyVec));
    assert_eq!(
        double_first_v5(vec!["tofu", "93", "18"]),
        Err(DoubleFirstError::Parse(ParseIntError::InvalidDigit))
    );
}

#[test]
fn df_v6_matches_v5() {
    for vec in [vec!["42", "93", "18"], vec![], vec!["tofu", "93"]] {
        assert_eq!(double_first_v6(vec.clone()), double_first_v5(vec));
    }
}

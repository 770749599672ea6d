use primer::arithmetic::checked_division;
use primer::arithmetic::division;
use primer::arithmetic::multiply;
use primer::arithmetic::MatchError;
use primer::fibonacci::fibonacci;
use primer::fizzbuzz::fizzbuzz;
use primer::fizzbuzz::fizzbuzz_to;
use primer::fizzbuzz::is_divisible_by;
use primer::fizzbuzz::is_odd;
use primer::fizzbuzz::sum_of_squared_odd_numbers;
use primer::fizzbuzz::FizzBuzz;
use primer::list::List;
use primer::reverse;
use primer::strings::digit_sum;
use primer::strings::str_eq;
use primer::strings::u32_to_string;
use primer::units::old_enough;
use primer::units::Days;
use primer::units::Years;

#[test]
fn arith_division_rounds_towards_zero() {
    assert_eq!(division(4, 2), 2);
    assert_eq!(division(-7, 2), -3);
    assert_eq!(division(7, -2), -3);
    assert_eq!(division(-7, -2), 3);
}

#[test]
fn arith_checked_division() {
    assert_eq!(checked_division(4, 2), Some(2));
    assert_eq!(checked_division(1, 0), None);
}

#[test]
fn arith_multiply_borrows() {
    assert_eq!(multiply(&2, &3), 6);
}

#[test]
fn arith_match_error_variants_differ() {
    assert_ne!(MatchError::DivisionByZero, MatchError::NegativeSquareRoot);
    assert_eq!(MatchError::NonPositiveLogarithm, MatchError::NonPositiveLogarithm);
}

#[test]
fn fb_single_words() {
    assert_eq!(fizzbuzz(15), FizzBuzz::FizzBuzz);
    assert_eq!(fizzbuzz(9), FizzBuzz::Fizz);
    assert_eq!(fizzbuzz(10), FizzBuzz::Buzz);
    assert_eq!(fizzbuzz(7), FizzBuzz::Number(7));
}

#[test]
fn fb_sequence() {
    let words = fizzbuzz_to(15);
    assert_eq!(words.len(), 15);
    assert_eq!(words[0], FizzBuzz::Number(1));
    assert_eq!(words[2], FizzBuzz::Fizz);
    assert_eq!(words[4], FizzBuzz::Buzz);
    assert_eq!(words[14], FizzBuzz::FizzBuzz);
}

#[test]
fn fb_division_by_zero_divides_nothing() {
    assert!(!is_divisible_by(10, 0));
    assert!(is_divisible_by(10, 5));
}

#[test]
fn fb_odd() {
    assert!(is_odd(3));
    assert!(!is_odd(8));
}

#[test]
fn fb_sum_of_squared_odd_numbers() {
    assert_eq!(sum_of_squared_odd_numbers(1000), 5456);
    assert_eq!(sum_of_squared_odd_numbers(0), 0);
    assert_eq!(sum_of_squared_odd_numbers(2), 1);
}

#[test]
fn fib_first_terms() {
    let mut stream = fibonacci();
    let mut terms = Vec::new();
    for _ in 0..5 {
        terms.push(stream.next().unwrap());
    }
    assert_eq!(terms, vec![1, 2, 3, 5, 8]);
}

#[test]
fn list_len_counts_elements() {
    let mut list = List::new();
    list = list.prepend(1);
    list = list.prepend(2);
    list = list.prepend(3);
    assert_eq!(list.len(), 3);
}

#[test]
fn list_stringify_walks_front_first() {
    let mut list = List::new();
    list = list.prepend(1);
    list = list.prepend(2);
    list = list.prepend(3);
    assert_eq!(list.stringify(), String::from("3, 2, 1, Nil"));
    assert_eq!(List::new().stringify(), String::from("Nil"));
}

#[test]
fn str_u32_rendering() {
    assert_eq!(u32_to_string(0), String::from("0"));
    assert_eq!(u32_to_string(1234), String::from("1234"));
    assert_eq!(u32_to_string(4294967295), String::from("4294967295"));
}

#[test]
fn str_eq_compares_contents() {
    assert!(str_eq("hello", "hello"));
    assert!(!str_eq("hello", "hellp"));
    assert!(!str_eq("hello", "hell"));
    assert!(str_eq("", ""));
}

#[test]
fn str_digit_sum() {
    assert_eq!(digit_sum("86967897737416471853297327050364959"), 187);
    assert_eq!(digit_sum(""), 0);
}

#[test]
fn units_round_trip() {
    let age = Years(5);
    let age_days = age.to_days();
    assert_eq!(age_days.0, 1825);
    assert_eq!(age_days.to_years().0, 5);
}

#[test]
fn units_partial_years_are_dropped() {
    assert_eq!(Days(800).to_years().0, 2);
    assert_eq!(Days(-800).to_years().0, -2);
}

#[test]
fn units_old_enough() {
    assert!(old_enough(&Years(18)));
    assert!(!old_enough(&Years(17)));
    assert!(!old_enough(&Days(6569).to_years()));
}

#[test]
fn pair_reverse() {
    assert_eq!(reverse((1, true)), (true, 1));
}

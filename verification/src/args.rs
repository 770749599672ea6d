//! Deciding what a small command line means: the answer check, the
//! increase and decrease commands, and every way the arguments can be
//! wrong.

use crate::parse_int::int_string_value;
use crate::parse_int::parses_to_i32;
use crate::parse_int::parse_i32;
use crate::strings::str_eq;
use vstd::prelude::*;

verus! {

/// What the program should do for a given argument list.
#[derive(Debug, Clone, Copy, PartialEq, Eq, Structural)]
pub enum Action {
    /// No arguments: introduce yourself.
    Greet,
    /// One argument that is the answer.
    Answer,
    /// One argument that is not the answer.
    NotAnswer,
    /// Increase the given number by one.
    Increase(i32),
    /// Decrease the given number by one.
    Decrease(i32),
    /// The second argument is not an integer.
    NotANumber,
    /// The command word is not known.
    InvalidCommand,
    /// Any other number of arguments: print the usage.
    Help,
}

/// The action an argument list calls for. The first entry is the program
/// name and does not count.
pub open spec fn action_for(args: Seq<String>) -> Action {
    if args.len() == 1 {
        Action::Greet
    } else if args.len() == 2 {
        if parses_to_i32(args[1]@) && int_string_value(args[1]@) == 42 {
            Action::Answer
        } else {
            Action::NotAnswer
        }
    } else if args.len() == 3 {
        if !parses_to_i32(args[2]@) {
            Action::NotANumber
        } else if args[1]@ == "increase"@ {
            Action::Increase(int_string_value(args[2]@) as i32)
        } else if args[1]@ == "decrease"@ {
            Action::Decrease(int_string_value(args[2]@) as i32)
        } else {
            Action::InvalidCommand
        }
    } else {
        Action::Help
    }
}

/// Reads the argument list and decides, without carrying any of it out.
pub fn choose_action(args: &Vec<String>) -> (r: Action)
    ensures
        r == action_for(args@),
{
    if args.len() == 1 {
        Action::Greet
    } else if args.len() == 2 {
        match parse_i32(args[1].as_str()) {
            Ok(n) => if n == 42 {
                Action::Answer
            } else {
                Action::NotAnswer
            },
            Err(_) => Action::NotAnswer,
        }
    } else if args.len() == 3 {
        match parse_i32(args[2].as_str()) {
            Err(_) => Action::NotANumber,
            Ok(number) => {
                if str_eq(args[1].as_str(), "increase") {
                    Action::Increase(number)
                } else if str_eq(args[1].as_str(), "decrease") {
                    Action::Decrease(number)
                } else {
                    Action::InvalidCommand
                }
            },
        }
    } else {
        Action::Help
    }
}

/// The increase command: one more.
pub fn increase(number: i32) -> (r: i32)
    requires
        number < i32::MAX,
    ensures
        r == number + 1,
{
    number + 1
}

/// The decrease command: one less.
pub fn decrease(number: i32) -> (r: i32)
    requires
        number > i32::MIN,
    ensures
        r == number - 1,
{
    number - 1
}

} // verus!

//! A phone directory and a login check, both looked up by exact string
//! match.

use crate::strings::str_eq;
use vstd::prelude::*;

verus! {

/// What the exchange answers for a dialled number.
pub open spec fn call_reply(number: Seq<char>) -> Seq<char> {
    if number == "798-1364"@ {
        "we're sorry, the call cannot be completed as dialed.Please hang up and try again"@
    } else if number == "645-7689"@ {
        "hello, this is Mr. Awesome's Pizza. My name is Fred.What can I get from you today?"@
    } else {
        "Hi! Who is this again?"@
    }
}

/// Dials a number and returns the exchange's reply.
pub fn call(number: &str) -> (r: &'static str)
    ensures
        r@ == call_reply(number@),
{
    if str_eq(number, "798-1364") {
        "we're sorry, the call cannot be completed as dialed.Please hang up and try again"
    } else if str_eq(number, "645-7689") {
        "hello, this is Mr. Awesome's Pizza. My name is Fred.What can I get from you today?"
    } else {
        "Hi! Who is this again?"
    }
}

/// The credentials a user logs on with.
pub struct Account {
    pub username: String,
    pub password: String,
}

/// What is known about an account's owner.
pub struct AccountInfo {
    pub name: String,
    pub email: String,
}

/// The entry at `i` matches the given credentials.
pub open spec fn logon_matches(
    accounts: Seq<(Account, AccountInfo)>,
    i: int,
    username: Seq<char>,
    password: Seq<char>,
) -> bool {
    accounts[i].0.username@ == username && accounts[i].0.password@ == password
}

/// Looks the credentials up and returns the position of the first
/// matching account, if any.
pub fn try_logon(accounts: &Vec<(Account, AccountInfo)>, username: &str, password: &str) -> (r:
    Option<usize>)
    ensures
        r matches Some(i) ==> {
            &&& i < accounts@.len()
            &&& logon_matches(accounts@, i as int, username@, password@)
            &&& forall|j: int| 0 <= j < i ==> !logon_matches(accounts@, j, username@, password@)
        },
        r is None ==> forall|j: int|
            0 <= j < accounts@.len() ==> !logon_matches(accounts@, j, username@, password@),
{
    let mut i: usize = 0;
    while i < accounts.len()
        invariant
            i <= accounts@.len(),
            forall|j: int| 0 <= j < i ==> !logon_matches(accounts@, j, username@, password@),
        decreases accounts@.len() - i,
    {
        let entry = &accounts[i];
        if str_eq(entry.0.username.as_str(), username) && str_eq(
            entry.0.password.as_str(),
            password,
        ) {
            return Some(i);
        }
        i += 1;
    }
    None
}

} // verus!

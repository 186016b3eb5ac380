//! Pattern capture and the time-derived request parameters.

use vstd::prelude::*;
use crate::text::{decimal, decimal_string, signed_decimal, signed_decimal_string};

verus! {

/// The text of the first capture group of the leftmost match of the regular
/// expression `pattern` in `text`, if the pattern compiles and matches.
pub uninterp spec fn regex_capture(pattern: Seq<char>, text: Seq<char>) -> Option<Seq<char>>;

/// Relies on regex::Regex::new and regex::Regex::captures: the text of the
/// first capture group of the leftmost match of `pattern` in `target`; `None`
/// where the pattern does not compile, does not match, or its first group
/// took no part in the match.
#[verifier::external_body]
pub fn capture(pattern: &str, target: &str) -> (r: Option<String>)
    ensures
        r is Some <==> regex_capture(pattern@, target@) is Some,
        r is Some ==> r->0@ == regex_capture(pattern@, target@)->0,
{
    let re = match regex::Regex::new(pattern) {
        Ok(re) => re,
        Err(_) => return None,
    };
    match re.captures(target) {
        Some(c) => match c.get(1) {
            Some(m) => Some(m.as_str().to_string()),
            None => None,
        },
        None => None,
    }
}

/// Relies on std::time::SystemTime::now: microseconds since the Unix epoch
/// (0 for a clock set before it). Nothing is known of the value.
#[verifier::external_body]
fn unix_micros() -> (r: u128) {
    match std::time::SystemTime::now().duration_since(std::time::SystemTime::UNIX_EPOCH) {
        Ok(d) => d.as_micros(),
        Err(_) => 0,
    }
}

/// The cache-busting pair sent with login and sync requests, for a clock
/// reading of `secs` seconds: the negated quotient of `secs` by 1579, and
/// `secs` itself.
pub fn r_params(secs: u128) -> (r: (String, String))
    ensures
        r.0@ == signed_decimal(-((secs / 1579) as int)),
        r.1@ == decimal(secs as nat),
{
    let q = (secs / 1579) as i128;
    (signed_decimal_string(-q), decimal_string(secs))
}

/// The cache-busting pair for the current time (see `r_params`).
pub fn get_r() -> (r: (String, String))
    ensures
        exists|secs: u128|
            r.0@ == signed_decimal(-((secs / 1579) as int)) && r.1@ == decimal(secs as nat),
{
    let secs = unix_micros() / 1000000;
    r_params(secs)
}

/// A fresh message id: the current time in microseconds, in decimal.
pub fn get_msg_id() -> (r: String)
    ensures
        exists|micros: u128| r@ == decimal(micros as nat),
{
    decimal_string(unix_micros())
}

} // verus!

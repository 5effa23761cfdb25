//! Conversions between `&str`, `String` and `Vec<char>`.  The editor core
//! works over characters; these helpers cross between the character world and
//! Rust's UTF-8 strings.

use vstd::prelude::*;
use vstd::string::*;

verus! {

/// Collects the characters of a string slice into a vector, in order.
pub fn str_to_chars(s: &str) -> (r: Vec<char>)
    ensures
        r@ == s@,
{
    let n = s.unicode_len();
    let mut r: Vec<char> = Vec::new();
    let mut i: usize = 0;
    while i < n
        invariant
            n == s@.len(),
            i <= n,
            r@ == s@.subrange(0, i as int),
        decreases n - i,
    {
        r.push(s.get_char(i));
        i += 1;
        proof {
            assert(r@ =~= s@.subrange(0, i as int));
        }
    }
    proof {
        assert(r@ =~= s@);
    }
    r
}

/// Relies on `String`'s `FromIterator` impl: collecting characters yields the
/// string made of exactly those characters, in order.
#[verifier::external_body]
pub fn chars_to_string(v: &Vec<char>) -> (r: String)
    ensures
        r@ == v@,
{
    v.iter().collect()
}

/// Relies on `char::to_string`: the string holding exactly the one character.
#[verifier::external_body]
pub fn char_to_string(c: char) -> (r: String)
    ensures
        r@ == seq![c],
{
    c.to_string()
}

} // verus!

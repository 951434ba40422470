//! String helpers that hand ownership around: creating a string and giving
//! it away, passing one through unchanged, appending to a growable buffer,
//! and measuring a string's length with and without borrowing it.

use vstd::prelude::*;
use vstd::string::StringExecFns;
use vstd::utf8::encode_utf8;

verus! {

/// Creates a string and moves it out to the caller.
pub fn gives_ownership() -> (r: String)
    ensures
        r@ == "yours"@,
{
    "yours".to_owned()
}

/// Takes ownership of a string and hands the very same value back.
pub fn takes_and_gives_back(a_string: String) -> (r: String)
    ensures
        r@ == a_string@,
{
    a_string
}

/// Builds the greeting by appending to a growable buffer.
pub fn hello_line() -> (r: String)
    ensures
        r@ == "hello, world!"@,
{
    let mut s = "hello".to_owned();
    s.append(", world!");
    proof {
        reveal_strlit("hello");
        reveal_strlit(", world!");
        reveal_strlit("hello, world!");
        assert(("hello"@ + ", world!"@) =~= "hello, world!"@);
    }
    s
}

/// Returns a string's length in bytes of its UTF-8 encoding, together with
/// the string itself, so that the caller keeps ownership of it.
pub fn calculate_length_noref(s: String) -> (r: (String, usize))
    ensures
        r.0@ == s@,
        r.1 == encode_utf8(s@).len() as usize,
{
    let length = s.as_str().len();
    (s, length)
}

/// Returns a borrowed string's length in bytes of its UTF-8 encoding; the
/// caller never gives ownership up.
pub fn calculate_length_ref(s: &String) -> (r: usize)
    ensures
        r == encode_utf8(s@).len() as usize,
{
    s.as_str().len()
}

} // verus!

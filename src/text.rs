//! Character-level string operations of std that the panes rely on.

use vstd::prelude::*;

verus! {

/// Whether `c` has Unicode's White_Space property.
pub open spec fn is_white_space(c: char) -> bool {
    let u = c as u32;
    ||| 0x09 <= u <= 0x0D
    ||| u == 0x20
    ||| u == 0x85
    ||| u == 0xA0
    ||| u == 0x1680
    ||| 0x2000 <= u <= 0x200A
    ||| u == 0x2028
    ||| u == 0x2029
    ||| u == 0x202F
    ||| u == 0x205F
    ||| u == 0x3000
}

/// The upper-case mapping of a string.
pub uninterp spec fn uppercase_of(s: Seq<char>) -> Seq<char>;

/// `t` is `s` without its leading and trailing white space.
pub open spec fn is_trim_of(t: Seq<char>, s: Seq<char>) -> bool {
    exists|a: int|
        {
            &&& 0 <= a <= a + t.len() <= s.len()
            &&& t == #[trigger] s.subrange(a, a + t.len())
            &&& forall|i: int|
                0 <= i < s.len() && !(a <= i < a + t.len()) ==> is_white_space(#[trigger] s[i])
            &&& t.len() > 0 ==> !is_white_space(t[0]) && !is_white_space(t.last())
        }
}

/// Relies on `String::push`: appends one character.
#[verifier::external_body]
pub(crate) fn push_char(s: &mut String, c: char)
    ensures
        final(s)@ == old(s)@.push(c),
{
    s.push(c)
}

/// Relies on `String::pop`: removes and returns the last character, if any.
#[verifier::external_body]
pub(crate) fn pop_char(s: &mut String) -> (r: Option<char>)
    ensures
        old(s)@.len() > 0 ==> r == Some(old(s)@.last()) && final(s)@ == old(s)@.drop_last(),
        old(s)@.len() == 0 ==> r is None && final(s)@ == old(s)@,
{
    s.pop()
}

/// Relies on `str::trim`: the slice without the leading and trailing
/// characters that have the White_Space property.
#[verifier::external_body]
pub(crate) fn trim(s: &str) -> (r: String)
    ensures
        exists|a: int|
            {
                &&& 0 <= a <= a + r@.len() <= s@.len()
                &&& r@ == #[trigger] s@.subrange(a, a + r@.len())
                &&& forall|i: int|
                    0 <= i < s@.len() && !(a <= i < a + r@.len()) ==> is_white_space(
                        #[trigger] s@[i],
                    )
                &&& r@.len() > 0 ==> !is_white_space(r@[0]) && !is_white_space(r@.last())
            },
{
    s.trim().to_string()
}

/// Relies on `str::to_uppercase`: the upper-case mapping, which depends on
/// the characters alone.
#[verifier::external_body]
pub(crate) fn to_uppercase(s: &str) -> (r: String)
    ensures
        r@ == uppercase_of(s@),
        s@.len() == 0 ==> r@.len() == 0,
{
    s.to_uppercase()
}

} // verus!

//! Assembling message texts from fixed parts and given strings.

use vstd::prelude::*;

verus! {

/// The text `a` followed by `b`.
pub fn join2(a: &str, b: &str) -> (text: String)
    ensures
        text@ == a@ + b@,
{
    let mut text = String::from_str(a);
    text.append(b);
    text
}

/// The text `a` followed by `b` and then `c`.
pub fn join3(a: &str, b: &str, c: &str) -> (text: String)
    ensures
        text@ == a@ + b@ + c@,
{
    let mut text = join2(a, b);
    text.append(c);
    text
}

/// The text `a` followed by `b`, `c` and `d`.
pub fn join4(a: &str, b: &str, c: &str, d: &str) -> (text: String)
    ensures
        text@ == a@ + b@ + c@ + d@,
{
    let mut text = join3(a, b, c);
    text.append(d);
    text
}

/// The views of a sequence of strings, one for one.
pub open spec fn texts_of(strings: Seq<String>) -> Seq<Seq<char>> {
    strings.map_values(|s: String| s@)
}

/// The view of an optional string.
pub open spec fn text_of(text: Option<String>) -> Option<Seq<char>> {
    match text {
        Some(text) => Some(text@),
        None => None,
    }
}

} // verus!

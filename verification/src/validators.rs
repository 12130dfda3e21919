use vstd::prelude::*;
use vstd::string::StrSliceExecFns;

verus! {

/// Whether std classifies `c` as alphanumeric.
pub uninterp spec fn char_alphanumeric(c: char) -> bool;

/// Relies on std's `char::is_alphanumeric`: Unicode letters and numbers;
/// on the ASCII range those are exactly the letters and digits.
#[verifier::external_body]
fn is_alphanumeric_char(c: char) -> (r: bool)
    ensures
        r == char_alphanumeric(c),
        (c as int) < 128 ==> r == (48 <= c as int <= 57 || 65 <= c as int <= 90 || 97 <= c as int
            <= 122),
{
    c.is_alphanumeric()
}

/// Whether the string's byte length lies between `min` and `max`, both
/// inclusive. Lengths count UTF-8 bytes, as the query layer measures them.
pub fn is_str_valid_length(value: &str, min: usize, max: usize) -> (r: bool)
    ensures
        r == (min <= value.len() <= max),
{
    if !(value.len() >= min) {
        return false;
    }
    if !(value.len() <= max) {
        return false;
    }
    true
}

/// Whether no character of `value` occurs in `blacklist`.
pub fn is_str_valid_pattern(value: &str, blacklist: &str) -> (r: bool)
    ensures
        r == (forall|i: int| 0 <= i < value@.len() ==> !blacklist@.contains(value@[i])),
{
    let value_len = value.unicode_len();
    let blacklist_len = blacklist.unicode_len();
    let mut i: usize = 0;
    while i < value_len
        invariant
            value_len == value@.len(),
            blacklist_len == blacklist@.len(),
            0 <= i <= value_len,
            forall|j: int| 0 <= j < i ==> !blacklist@.contains(value@[j]),
        decreases value_len - i,
    {
        let value_c = value.get_char(i);
        let mut k: usize = 0;
        while k < blacklist_len
            invariant
                blacklist_len == blacklist@.len(),
                value_c == value@[i as int],
                0 <= i < value@.len(),
                0 <= k <= blacklist_len,
                forall|l: int| 0 <= l < k ==> blacklist@[l] != value_c,
            decreases blacklist_len - k,
        {
            let blacklist_c = blacklist.get_char(k);
            if value_c == blacklist_c {
                return false;
            }
            k += 1;
        }
        i += 1;
    }
    true
}

/// Whether every character of `value` is alphanumeric, as std classifies
/// characters.
pub fn is_str_alphanumeric(value: &str) -> (r: bool)
    ensures
        r == (forall|i: int| 0 <= i < value@.len() ==> char_alphanumeric(value@[i])),
{
    let value_len = value.unicode_len();
    let mut i: usize = 0;
    while i < value_len
        invariant
            value_len == value@.len(),
            0 <= i <= value_len,
            forall|j: int| 0 <= j < i ==> char_alphanumeric(value@[j]),
        decreases value_len - i,
    {
        let c = value.get_char(i);
        if !is_alphanumeric_char(c) {
            return false;
        }
        i += 1;
    }
    true
}

} // verus!

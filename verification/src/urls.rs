use vstd::prelude::*;
use vstd::string::StringExecFns;
use crate::numeric;

verus! {

/// What percent-encoding a string comes to. The encoding is a function of
/// the characters alone; its full writing (the UTF-8 bytes of everything
/// reserved, each as `%` and two hex digits) is left to the encoder.
pub uninterp spec fn url_encoded(s: Seq<char>) -> Seq<char>;

/// A character that percent-encoding leaves as it is: an ASCII letter or
/// digit, or one of `-`, `_`, `.`, `~`.
pub open spec fn is_unreserved(c: char) -> bool {
    ||| 48 <= c as int <= 57
    ||| 65 <= c as int <= 90
    ||| 97 <= c as int <= 122
    ||| c == '-'
    ||| c == '_'
    ||| c == '.'
    ||| c == '~'
}

/// Relies on urlencoding's `encode`: percent-encodes every byte of the
/// string's UTF-8 writing except ASCII alphanumerics and `-`, `_`, `.`,
/// `~`; in particular a string of unreserved characters alone comes back
/// unchanged.
#[verifier::external_body]
fn encode_component(s: &str) -> (r: String)
    ensures
        r@ == url_encoded(s@),
        (forall|i: int| 0 <= i < s@.len() ==> is_unreserved(s@[i])) ==> r@ == s@,
{
    urlencoding::encode(s).into_owned()
}

/// The upstream profile endpoint for a username, with the username
/// percent-encoded into the path.
pub open spec fn spec_profile_url(username: Seq<char>) -> Seq<char> {
    "https://api.github.com/users/"@ + url_encoded(username)
}

/// Builds the profile-API URL for a username.
pub fn profile_url(username: &str) -> (r: String)
    ensures
        r@ == spec_profile_url(username@),
{
    let mut s = "https://api.github.com/users/".to_owned();
    let encoded = encode_component(username);
    s.append(encoded.as_str());
    s
}

/// The upstream avatar endpoint for a profile id, written in decimal.
pub open spec fn spec_avatar_url(id: int) -> Seq<char> {
    "https://avatars.githubusercontent.com/u/"@ + numeric::spec_i64_digits(id) + "?v=4"@
}

/// Builds the avatar URL for a profile id.
pub fn avatar_url_by_id(id: i32) -> (r: String)
    ensures
        r@ == spec_avatar_url(id as int),
{
    let mut s = "https://avatars.githubusercontent.com/u/".to_owned();
    let digits = numeric::i64_to_string(id as i64);
    s.append(digits.as_str());
    s.append("?v=4");
    s
}

} // verus!

use vstd::prelude::*;
use vstd::string::StringExecFns;
use crate::numeric;
use crate::validators;

verus! {

/// The data the outer page template is rendered with.
pub struct TemplateViewModel {
    pub title: String,
    pub body: String,
}

/// The data the error-page template is rendered with.
pub struct TemplateErrorViewModel {
    pub code: u16,
    pub reason: String,
}

/// The characters a query value may not carry into the card request: the
/// quoting and path delimiters of the surrounding HTML and URLs.
pub open spec fn spec_query_delimiters() -> Seq<char> {
    "'\"<>\\/"@
}

/// The delimiter blacklist for query values.
pub fn query_delimiters() -> (r: &'static str)
    ensures
        r@ == spec_query_delimiters(),
{
    "'\"<>\\/"
}

/// The query parameters of a card request: the username to look up and an
/// optional pronouns selector.
pub struct GithubUserViewModel {
    pub user: String,
    pub pronouns: Option<String>,
}

impl GithubUserViewModel {
    /// A request is valid when the username fits the upstream's 39-byte
    /// limit (measured in UTF-8 bytes) and neither value carries a
    /// delimiter character.
    pub open spec fn spec_is_valid(&self) -> bool {
        &&& vstd::utf8::encode_utf8(self.user@).len() as usize <= 39
        &&& forall|i: int|
            0 <= i < self.user@.len() ==> !spec_query_delimiters().contains(self.user@[i])
        &&& match self.pronouns {
            Some(p) => forall|i: int|
                0 <= i < p@.len() ==> !spec_query_delimiters().contains(p@[i]),
            None => true,
        }
    }

    /// Validates the request's query values.
    pub fn is_valid(&self) -> (r: bool)
        ensures
            r == self.spec_is_valid(),
    {
        let mut is_user_valid = validators::is_str_valid_length(self.user.as_str(), 0, 39);
        is_user_valid = is_user_valid && validators::is_str_valid_pattern(
            self.user.as_str(),
            query_delimiters(),
        );

        let is_pronouns_valid = match &self.pronouns {
            Some(pronouns) => validators::is_str_valid_pattern(
                pronouns.as_str(),
                query_delimiters(),
            ),
            None => true,
        };

        is_user_valid && is_pronouns_valid
    }
}

/// The page title for an HTTP status: the code in decimal, a space, and
/// the status's reason phrase.
pub fn get_status_title(code: u16, reason: &str) -> (r: String)
    ensures
        r@ == numeric::spec_nat_digits(code as int) + " "@ + reason@,
{
    let mut s = numeric::u64_to_string(code as u64);
    s.append(" ");
    s.append(reason);
    s
}

/// The inline-image markup the HTML preview endpoint answers with, wired
/// to the card endpoint for the same query values.
pub fn image_html(user: &str, pronouns: &str) -> (r: String)
    ensures
        r@ == "<img class=\"img-fluid img-thumbnail\" src=\"http://localhost:8080/image?user="@
            + user@ + "&pronouns="@ + pronouns@ + "\"/>"@,
{
    let mut s = "<img class=\"img-fluid img-thumbnail\" src=\"http://localhost:8080/image?user=".to_owned();
    s.append(user);
    s.append("&pronouns=");
    s.append(pronouns);
    s.append("\"/>");
    s
}

} // verus!

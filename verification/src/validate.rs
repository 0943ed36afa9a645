//! Checks of what a request carries: addresses, handles, password hashes and
//! redirect targets, each against its pattern.

use regex::Regex;
use vstd::prelude::*;

verus! {

/// The pattern of an e-mail address.
pub const EMAIL_PATTERN: &'static str =
    r#"^(\(\w+\))?(([A-Za-z\d]+!)?\w([A-Za-z\d][-.\w]?)+[-A-Za-z\d]|"([-\] (),.:;<>@\[\w]|\\\\"?)+")(\/[A-Za-z\d]+)?(\+[A-Za-z\d]+)?(%(([A-Za-z\d]+)(\.[A-Za-z\d]+)*|\[((((1?\d{1,2}|2[0-5]{1,2})\.){3}(1?\d{1,2}|2[0-5]{1,2}))|([A-Fa-f\d]{1,4}:){1,4}:((25[0-5]|(2[0-4]|1?\d)?\d)\.){3}(25[0-5]|(2[0-4]|1?\d)?\d)|([A-Fa-f\d]{1,4}:){7}[A-Fa-f\d]{1,4}|([A-Fa-f\d]{1,4}:){1,7}:|([A-Fa-f\d]{1,4}:){1,6}:[A-Fa-f\d]{1,4}|([A-Fa-f\d]{1,4}:){1,5}(:[A-Fa-f\d]{1,4}){1,2}|([A-Fa-f\d]{1,4}:){1,4}(:[A-Fa-f\d]{1,4}){1,3}|([A-Fa-f\d]{1,4}:){1,3}(:[A-Fa-f\d]{1,4}){1,4}|([A-Fa-f\d]{1,4}:){1,2}(:[A-Fa-f\d]{1,4}){1,5}|[A-Fa-f\d]{1,4}:((:[A-Fa-f\d]{1,4}){1,6})|:((:[A-Fa-f\d]{1,4}){1,7}|:)|fe80:(:[A-Fa-f\d]{0,4}){0,4}%[A-Za-z\d]+|::(ffff(:0{1,4})?:)?((1?\d{1,2}|2[0-5]{1,2})\.){3}(1?\d{1,2}|2[0-5]{1,2})|([A-Fa-f\d]{1,4}:){1,4}:((1?\d{1,2}|2[0-5]{1,2})\.){3}(1?\d{1,2}|2[0-5]{1,2}))]))?(\(\w+\))?@(([A-Za-z\d]+)(\.[A-Za-z\d]+)*$|\[((((1?\d{1,2}|2[0-5]{1,2})\.){3}(1?\d{1,2}|2[0-5]{1,2}))|([A-Fa-f\d]{1,4}:){1,4}:((25[0-5]|(2[0-4]|1?\d)?\d)\.){3}(25[0-5]|(2[0-4]|1?\d)?\d)|([A-Fa-f\d]{1,4}:){7}[A-Fa-f\d]{1,4}|([A-Fa-f\d]{1,4}:){1,7}:|([A-Fa-f\d]{1,4}:){1,6}:[A-Fa-f\d]{1,4}|([A-Fa-f\d]{1,4}:){1,5}(:[A-Fa-f\d]{1,4}){1,2}|([A-Fa-f\d]{1,4}:){1,4}(:[A-Fa-f\d]{1,4}){1,3}|([A-Fa-f\d]{1,4}:){1,3}(:[A-Fa-f\d]{1,4}){1,4}|([A-Fa-f\d]{1,4}:){1,2}(:[A-Fa-f\d]{1,4}){1,5}|[A-Fa-f\d]{1,4}:((:[A-Fa-f\d]{1,4}){1,6})|:((:[A-Fa-f\d]{1,4}){1,7}|:)|fe80:(:[A-Fa-f\d]{0,4}){0,4}%[A-Za-z\d]+|::(ffff(:0{1,4})?:)?((1?\d{1,2}|2[0-5]{1,2})\.){3}(1?\d{1,2}|2[0-5]{1,2})|([A-Fa-f\d]{1,4}:){1,4}:((1?\d{1,2}|2[0-5]{1,2})\.){3}(1?\d{1,2}|2[0-5]{1,2}))])$"#;

/// The pattern of a handle: an optional `@` and 3 to 15 word or punctuation
/// characters.
pub const HANDLE_PATTERN: &'static str = r"^@?+[\w!$-.\\\/]{3,15}$";

/// The pattern of a redirect target: an http or https address.
pub const REDIRECT_PATTERN: &'static str =
    r"^https?+:\/{2}+[a-zA-Z0-9]++(?:\.[a-zA-Z0-9]++)++\/?(?:\/[\w.\-~!$&'()*+,;=:@]++)*+$";

/// The pattern of a password hash: 43 base64 characters and one `=`.
pub const PASSWORD_PATTERN: &'static str = r"^[a-zA-Z0-9+\/]{43}+=$";

/// The pattern that picks a user id out of random text: two letters, two
/// digits and three letters, in this order, with anything between them.
pub const UID_FILTERING_PATTERN: &'static str =
    r"([a-z])[^a-z]*([a-z])[^a-z]*(\d)[^\d]*(\d)[^\d]*([a-z])[^a-z]*([a-z])[^a-z]*([a-z])[^a-z]*";

/// Whether the regular expression `pattern` matches somewhere in `text`, or
/// `None` where the regex crate rejects the pattern.
pub uninterp spec fn regex_matches(pattern: Seq<char>, text: Seq<char>) -> Option<bool>;

/// The capture groups of the leftmost match of `pattern` in `text`, group 0
/// first, each with the text it matched or `None` where it took no part;
/// `None` where the regex crate rejects the pattern or nothing matches.
pub uninterp spec fn regex_groups(pattern: Seq<char>, text: Seq<char>) -> Option<
    Seq<Option<Seq<char>>>,
>;

/// The texts inside a vector of optional strings.
pub open spec fn group_texts(groups: Seq<Option<String>>) -> Seq<Option<Seq<char>>> {
    Seq::new(groups.len(), |i: int| crate::codec::text_of(groups[i]))
}

/// The value inside optional capture groups.
pub open spec fn groups_of(o: Option<Vec<Option<String>>>) -> Option<Seq<Option<Seq<char>>>> {
    match o {
        Some(groups) => Some(group_texts(groups@)),
        None => None,
    }
}

/// Calls `regex::Regex::new` and, on the expression it gives, `is_match`.
/// Not proved: that the result is the named function of pattern and text.
#[verifier::external_body]
pub(crate) fn regex_is_match(pattern: &str, text: &str) -> (r: Option<bool>)
    ensures
        r == regex_matches(pattern@, text@),
{
    match Regex::new(pattern) {
        Ok(expression) => Some(expression.is_match(text)),
        Err(_) => None,
    }
}

/// Calls `regex::Regex::new` and, on the expression it gives, `captures`;
/// each group is copied out as a string. Not proved: that the result is the
/// named function of pattern and text.
#[verifier::external_body]
pub(crate) fn regex_captures(pattern: &str, text: &str) -> (r: Option<Vec<Option<String>>>)
    ensures
        groups_of(r) == regex_groups(pattern@, text@),
{
    let expression = Regex::new(pattern).ok()?;
    let found = expression.captures(text)?;
    Some(found.iter().map(|group| group.map(|m| m.as_str().to_string())).collect())
}

/// Whether `text` matches `pattern`. A pattern that the regex crate rejects
/// matches nothing.
pub open spec fn matches_pattern(pattern: Seq<char>, text: Seq<char>) -> bool {
    regex_matches(pattern, text) == Some(true)
}

/// Computes [`matches_pattern`].
pub fn is_match(pattern: &str, text: &str) -> (r: bool)
    ensures
        r == matches_pattern(pattern@, text@),
{
    match regex_is_match(pattern, text) {
        Some(found) => found,
        None => false,
    }
}

/// Whether `email` is an e-mail address.
pub fn is_valid_email(email: &str) -> (r: bool)
    ensures
        r == matches_pattern(EMAIL_PATTERN@, email@),
{
    is_match(EMAIL_PATTERN, email)
}

/// Whether `handle` can be a user's handle.
pub fn is_valid_handle(handle: &str) -> (r: bool)
    ensures
        r == matches_pattern(HANDLE_PATTERN@, handle@),
{
    is_match(HANDLE_PATTERN, handle)
}

/// Whether `password` has the shape of a password hash.
pub fn is_valid_password(password: &str) -> (r: bool)
    ensures
        r == matches_pattern(PASSWORD_PATTERN@, password@),
{
    is_match(PASSWORD_PATTERN, password)
}

/// Whether `target` is an address that a login may redirect to.
pub fn is_valid_redirect(target: &str) -> (r: bool)
    ensures
        r == matches_pattern(REDIRECT_PATTERN@, target@),
{
    is_match(REDIRECT_PATTERN, target)
}

} // verus!

//! Syntactic validation of the homeserver URL.
//!
//! A sign-in attempt starts by parsing the homeserver URL; when it does not
//! parse, the attempt fails at once with no network call. The parse itself is
//! done by the `url` crate; its outcome is a function of the input text alone
//! and is given the name [`parsed_url`].

use vstd::prelude::*;

verus! {

/// The serialization of `s` parsed as an absolute URL, or nothing when `s`
/// does not parse as one.
pub uninterp spec fn parsed_url(s: Seq<char>) -> Option<Seq<char>>;

/// Relies on `url::Url::parse`: whether a string parses as an absolute URL,
/// and on `url::Url::as_str`: the parsed URL's serialization. Both depend on
/// the input string alone.
#[verifier::external_body]
pub(crate) fn parse_homeserver_url(s: &str) -> (r: Option<String>)
    ensures
        (r is Some) == (parsed_url(s@) is Some),
        match r {
            Some(u) => parsed_url(s@) == Some(u@),
            None => true,
        },
{
    match url::Url::parse(s) {
        Ok(u) => Some(String::from(u.as_str())),
        Err(_) => None,
    }
}

} // verus!

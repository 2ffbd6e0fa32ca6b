use vstd::prelude::*;

verus! {

/// The normalized serialization of the URL that `s` parses as, or `None`
/// where `s` is not a URL. What it is on given input is left to the url
/// crate; it depends on the characters of `s` alone.
pub uninterp spec fn url_normal_of(s: Seq<char>) -> Option<Seq<char>>;

/// Relies on url::Url::parse and the Display serialization of the parsed
/// URL: together a pure function of the input string, returning its
/// normalized form exactly when it parses.
#[verifier::external_body]
pub(crate) fn normalize_url(s: &String) -> (r: Option<String>)
    ensures
        r is Some <==> url_normal_of(s@) is Some,
        r matches Some(u) ==> url_normal_of(s@) == Some(u@),
{
    match url::Url::parse(s.as_str()) {
        Ok(u) => Some(u.to_string()),
        Err(_) => None,
    }
}

} // verus!

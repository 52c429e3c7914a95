//! The calls into `url` and `regex` that the helper makes.
use vstd::prelude::*;

verus! {

/// Whether `url::Url::parse` accepts `s`.
pub uninterp spec fn spec_url_parses(s: Seq<char>) -> bool;

/// The text of `url::Url::parse(base)` joined with `rel`, or `None` when
/// either step fails.
pub uninterp spec fn spec_url_join(base: Seq<char>, rel: Seq<char>) -> Option<Seq<char>>;

/// The text with the first match of `pattern` replaced by `rep`, in which
/// group references (`$name`, `${n}`) are expanded; `None` when `pattern`
/// is not a valid regular expression.
pub uninterp spec fn spec_regex_replace_first(pattern: Seq<char>, s: Seq<char>, rep: Seq<char>) -> Option<Seq<char>>;

/// Why joining to a base URL failed.
pub enum UrlJoinError {
    /// `url::Url::parse` refused the base.
    BadBase,
    /// `Url::join` refused the relative part.
    BadJoin,
}

/// `url::Url::parse(base)` then `Url::join(rel)`, as text. The contract
/// names both results: whether the base parses, and the joined URL (none
/// when either step fails); the URL rules themselves are not spelled out.
#[verifier::external_body]
pub fn url_parse_join(base: &str, rel: &str) -> (r: Result<String, UrlJoinError>)
    ensures
        (r matches Err(UrlJoinError::BadBase)) == !spec_url_parses(base@),
        match r {
            Ok(s) => spec_url_join(base@, rel@) == Some(s@),
            Err(_) => spec_url_join(base@, rel@) is None,
        },
{
    match url::Url::parse(base) {
        Ok(u) => match u.join(rel) {
            Ok(j) => Ok(j.to_string()),
            Err(_) => Err(UrlJoinError::BadJoin),
        },
        Err(_) => Err(UrlJoinError::BadBase),
    }
}

/// `regex::Regex::new(pattern)` then `Regex::replace(s, rep)`; `None` when
/// the pattern does not compile. `rep` is a replacement template: its
/// group references are expanded. The contract names the result; the
/// regular-expression language and the template syntax are not spelled
/// out.
#[verifier::external_body]
pub fn regex_replace_first(pattern: &str, s: &str, rep: &str) -> (r: Option<String>)
    ensures
        crate::expand::opt_view(r) == spec_regex_replace_first(pattern@, s@, rep@),
{
    match regex::Regex::new(pattern) {
        Ok(re) => Some(re.replace(s, rep).into_owned()),
        Err(_) => None,
    }
}

} // verus!

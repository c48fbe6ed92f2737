//! Absolute addresses and the resolution of relative paths against them,
//! as done by the `url` crate.

use vstd::prelude::*;

verus! {

#[verifier::external_type_specification]
#[verifier::external_body]
pub struct ExUrl(url::Url);

#[verifier::external_type_specification]
#[verifier::external_body]
pub struct ExParseError(url::ParseError);

/// The serialization of a parsed address: what `Url::as_str` hands out.
pub uninterp spec fn url_text(u: url::Url) -> Seq<char>;

/// What `Url::parse` makes of an input: the serialization of the address
/// it accepted, or the reason for which it refused the input.
pub uninterp spec fn url_parse(input: Seq<char>) -> Result<Seq<char>, url::ParseError>;

/// What `Url::join` makes of a reference read against a base, the base given
/// by its serialization.
pub uninterp spec fn url_join(base: Seq<char>, reference: Seq<char>) -> Result<Seq<char>, url::ParseError>;

/// `Url::parse` is a function of its input alone; an address that it
/// accepts is known by its serialization.
pub assume_specification[ url::Url::parse ](input: &str) -> (r: Result<url::Url, url::ParseError>)
    ensures
        match r {
            Ok(u) => url_parse(input@) == Ok::<Seq<char>, url::ParseError>(url_text(u)),
            Err(e) => url_parse(input@) == Err::<Seq<char>, url::ParseError>(e),
        },
;

/// `Url::join` is a function of the base's serialization and of the
/// reference.
pub assume_specification[ url::Url::join ](base: &url::Url, reference: &str) -> (r: Result<url::Url, url::ParseError>)
    ensures
        match r {
            Ok(u) => url_join(url_text(*base), reference@) == Ok::<Seq<char>, url::ParseError>(url_text(u)),
            Err(e) => url_join(url_text(*base), reference@) == Err::<Seq<char>, url::ParseError>(e),
        },
;

/// `Url::as_str` hands out the serialization.
pub assume_specification<'a>[ url::Url::as_str ](u: &'a url::Url) -> (r: &'a str)
    ensures
        r@ == url_text(*u),
;

/// Resolves `reference` against `base` and returns the absolute address as text.
pub fn resolve(base: &url::Url, reference: &str) -> (r: Result<String, url::ParseError>)
    ensures
        match r {
            Ok(s) => url_join(url_text(*base), reference@) == Ok::<Seq<char>, url::ParseError>(s@),
            Err(e) => url_join(url_text(*base), reference@) == Err::<Seq<char>, url::ParseError>(e),
        },
{
    match base.join(reference) {
        Ok(u) => Ok(String::from_str(u.as_str())),
        Err(e) => Err(e),
    }
}

} // verus!

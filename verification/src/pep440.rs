//! PEP 440 versions, as `pep440_rs` parses, normalizes and orders them.
use pep440_rs::Version;
use std::str::FromStr;
use vstd::prelude::*;

verus! {

#[verifier::external_type_specification]
#[verifier::external_body]
pub struct ExVersion(Version);

/// Whether `Version::from_str` accepts `text`.
pub uninterp spec fn pep440_parses(text: Seq<char>) -> bool;

/// `Version::is_stable` of the version parsed from `text`: neither a pre-release nor a dev
/// release.
pub uninterp spec fn pep440_is_stable(text: Seq<char>) -> bool;

/// `Version::release` of the version parsed from `text`: its release numbers.
pub uninterp spec fn pep440_release(text: Seq<char>) -> Seq<u64>;

/// The normalized rendering (`Display`) of the version parsed from `text`.
pub uninterp spec fn pep440_normalized(text: Seq<char>) -> Seq<char>;

/// Whether the version parsed from `a` is greater than the one parsed from `b`, in PEP 440
/// order.
pub uninterp spec fn pep440_greater(a: Seq<char>, b: Seq<char>) -> bool;

/// A version parsed from a text. Its view is that text: a value is only built by
/// [`parse_version`], from the text it keeps.
pub struct ParsedVersion {
    text: String,
    version: Version,
}

impl View for ParsedVersion {
    type V = Seq<char>;

    closed spec fn view(&self) -> Seq<char> {
        self.text@
    }
}

/// `Version::from_str`: `Some` exactly when pep440_rs accepts `text`.
#[verifier::external_body]
pub(crate) fn parse_version(text: &str) -> (r: Option<ParsedVersion>)
    ensures
        r is Some == pep440_parses(text@),
        r matches Some(v) ==> v@ == text@,
{
    match Version::from_str(text) {
        Ok(version) => Some(ParsedVersion { text: text.to_string(), version }),
        Err(_) => None,
    }
}

impl ParsedVersion {
    /// `Version::is_stable`.
    #[verifier::external_body]
    pub(crate) fn is_stable(&self) -> (r: bool)
        ensures
            r == pep440_is_stable(self@),
    {
        self.version.is_stable()
    }

    /// `Version::release`, copied.
    #[verifier::external_body]
    pub(crate) fn release(&self) -> (r: Vec<u64>)
        ensures
            r@ == pep440_release(self@),
    {
        self.version.release().to_vec()
    }

    /// The normalized rendering of the version (`Display`).
    #[verifier::external_body]
    pub(crate) fn normalized(&self) -> (r: String)
        ensures
            r@ == pep440_normalized(self@),
    {
        self.version.to_string()
    }

    /// `self > other`, in PEP 440 order (`PartialOrd`).
    #[verifier::external_body]
    pub(crate) fn is_greater_than(&self, other: &ParsedVersion) -> (r: bool)
        ensures
            r == pep440_greater(self@, other@),
    {
        self.version > other.version
    }
}

} // verus!

//! The two casing conventions, both computed by the `heck` crate so that they
//! share one word-boundary algorithm.

use heck::ToLowerCamelCase;
use heck::ToUpperCamelCase;
use vstd::prelude::*;

verus! {

/// The lowerCamelCase form of `s`, as `heck` computes it.
pub uninterp spec fn lower_camel_case(s: Seq<char>) -> Seq<char>;

/// The UpperCamelCase form of `s`, as `heck` computes it.
pub uninterp spec fn upper_camel_case(s: Seq<char>) -> Seq<char>;

/// The renaming that normalisation applies to every identifier.
pub open spec fn casing() -> spec_fn(Seq<char>) -> Seq<char> {
    |s: Seq<char>| lower_camel_case(s)
}

/// Calls `heck::ToLowerCamelCase::to_lower_camel_case` on a `str`.
/// Trusted: the result is a function of the characters of `s` alone, which
/// the contract names `lower_camel_case`; nothing more is claimed of it.
#[verifier::external_body]
pub(crate) fn lower_camel(s: &str) -> (r: String)
    ensures
        r@ == lower_camel_case(s@),
{
    s.to_lower_camel_case()
}

/// Calls `heck::ToUpperCamelCase::to_upper_camel_case` on a `str`.
/// Trusted: the result is a function of the characters of `s` alone, which
/// the contract names `upper_camel_case`; nothing more is claimed of it.
#[verifier::external_body]
pub(crate) fn upper_camel(s: &str) -> (r: String)
    ensures
        r@ == upper_camel_case(s@),
{
    s.to_upper_camel_case()
}

} // verus!

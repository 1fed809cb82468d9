//! Identifier case conversion, done by the `heck` crate.

use vstd::prelude::*;

use heck::{ToLowerCamelCase, ToUpperCamelCase};

verus! {

/// What `heck` makes of a text in UpperCamelCase: its words (split at non-alphanumeric
/// characters and at lower-to-upper case changes) capitalized and joined.
pub uninterp spec fn upper_camel(s: Seq<char>) -> Seq<char>;

/// What `heck` makes of a text in lowerCamelCase: as [`upper_camel`], but with the first
/// word in lower case.
pub uninterp spec fn lower_camel(s: Seq<char>) -> Seq<char>;

/// `heck::ToUpperCamelCase::to_upper_camel_case` on a `str`. Its result is named, not
/// described: it depends on the text alone.
#[verifier::external_body]
pub(crate) fn to_upper_camel_case(s: &str) -> (r: String)
    ensures
        r@ == upper_camel(s@),
{
    s.to_upper_camel_case()
}

/// `heck::ToLowerCamelCase::to_lower_camel_case` on a `str`. Its result is named, not
/// described: it depends on the text alone.
#[verifier::external_body]
pub(crate) fn to_lower_camel_case(s: &str) -> (r: String)
    ensures
        r@ == lower_camel(s@),
{
    s.to_lower_camel_case()
}

} // verus!

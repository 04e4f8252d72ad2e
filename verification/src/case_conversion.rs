//! The case conversions of the `recase` crate, which turn a text into the
//! identifier style that `flutter_gen` generates.

use vstd::prelude::*;

verus! {

/// What `recase::ReCase::new(text).snake_case()` returns for `text`.
pub uninterp spec fn recase_snake_case(text: Seq<char>) -> Seq<char>;

/// What `recase::ReCase::new(text).camel_case()` returns for `text`.
pub uninterp spec fn recase_camel_case(text: Seq<char>) -> Seq<char>;

/// What `recase::ReCase::new(text).pascal_case()` returns for `text`.
pub uninterp spec fn recase_pascal_case(text: Seq<char>) -> Seq<char>;

/// What `recase::ReCase::new(text).dot_case()` returns for `text`.
pub uninterp spec fn recase_dot_case(text: Seq<char>) -> Seq<char>;

/// Calls `recase::ReCase::snake_case` on `text`. The contract claims only
/// that the result is a function of `text` (the word splitting and Unicode
/// lower-casing of `recase` are not restated here).
#[verifier::external_body]
pub(crate) fn snake_case(text: &str) -> (r: String)
    ensures
        r@ == recase_snake_case(text@),
{
    recase::ReCase::new(text).snake_case()
}

/// Calls `recase::ReCase::camel_case` on `text`; the contract claims only
/// that the result is a function of `text`.
#[verifier::external_body]
pub(crate) fn camel_case(text: &str) -> (r: String)
    ensures
        r@ == recase_camel_case(text@),
{
    recase::ReCase::new(text).camel_case()
}

/// Calls `recase::ReCase::pascal_case` on `text`; the contract claims only
/// that the result is a function of `text`.
#[verifier::external_body]
pub(crate) fn pascal_case(text: &str) -> (r: String)
    ensures
        r@ == recase_pascal_case(text@),
{
    recase::ReCase::new(text).pascal_case()
}

/// Calls `recase::ReCase::dot_case` on `text`; the contract claims only
/// that the result is a function of `text`.
#[verifier::external_body]
pub(crate) fn dot_case(text: &str) -> (r: String)
    ensures
        r@ == recase_dot_case(text@),
{
    recase::ReCase::new(text).dot_case()
}

} // verus!

//! Case conversion of identifiers, delegated to the `heck` crate.
//!
//! The exact word-splitting rules are `heck`'s; the names below stand for its
//! results, and the pinned behaviour (e.g. `order_items` becoming
//! `OrderItems`) is checked by tests through the public plan assembler.

use heck::ToPascalCase;
use heck::ToShoutySnakeCase;
use heck::ToSnakeCase;
use vstd::prelude::*;

verus! {

/// The PascalCase rendering of `s`, as `heck` defines it.
pub uninterp spec fn pascal_of(s: Seq<char>) -> Seq<char>;

/// The snake_case rendering of `s`, as `heck` defines it.
pub uninterp spec fn snake_of(s: Seq<char>) -> Seq<char>;

/// The SCREAMING_SNAKE_CASE rendering of `s`, as `heck` defines it.
pub uninterp spec fn shouty_of(s: Seq<char>) -> Seq<char>;

/// Relies on `heck::ToPascalCase::to_pascal_case`: the result depends on the
/// characters of `s` alone.
#[verifier::external_body]
pub(crate) fn pascal_case(s: &str) -> (r: String)
    ensures
        r@ == pascal_of(s@),
{
    s.to_pascal_case()
}

/// Relies on `heck::ToSnakeCase::to_snake_case`: the result depends on the
/// characters of `s` alone.
#[verifier::external_body]
pub(crate) fn snake_case(s: &str) -> (r: String)
    ensures
        r@ == snake_of(s@),
{
    s.to_snake_case()
}

/// Relies on `heck::ToShoutySnakeCase::to_shouty_snake_case`: the result
/// depends on the characters of `s` alone.
#[verifier::external_body]
pub(crate) fn shouty_snake_case(s: &str) -> (r: String)
    ensures
        r@ == shouty_of(s@),
{
    s.to_shouty_snake_case()
}

} // verus!

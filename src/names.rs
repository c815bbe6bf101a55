//! Identifiers: snake-casing names and keeping them clear of Rust keywords.
use vstd::prelude::*;
use vstd::string::StringExecFns;
use crate::text::{decimal, push_decimal};

verus! {

/// What inflector's snake-casing makes of a name.
pub uninterp spec fn snake_case_of(s: Seq<char>) -> Seq<char>;

/// Whether syn reads the whole text as one identifier that it accepts.
pub uninterp spec fn parses_as_ident(s: Seq<char>) -> bool;

/// Relies on `inflector::Inflector::to_snake_case` for `str`: the lower-case,
/// underscore-separated form of a name, which depends on its characters alone.
#[verifier::external_body]
fn to_snake_case(s: &str) -> (r: String)
    ensures
        r@ == snake_case_of(s@),
{
    inflector::Inflector::to_snake_case(s)
}

/// Relies on `syn::parse_str::<syn::Ident>`: whether the whole text lexes as
/// one identifier that syn accepts; syn refuses `_` and the reserved words of
/// Rust 2015 (`type`, `self`, `match`, ...), and accepts raw identifiers and
/// the later keywords `async`, `await`, `dyn` and `try`.
#[verifier::external_body]
fn parses_as_identifier(s: &str) -> (r: bool)
    ensures
        r == parses_as_ident(s@),
{
    syn::parse_str::<syn::Ident>(s).is_ok()
}

/// `s` itself where it is a usable identifier, else `s` with an underscore
/// appended (so `type` becomes `type_`).
pub open spec fn safe_ident(s: Seq<char>) -> Seq<char> {
    if parses_as_ident(s) {
        s
    } else {
        s + "_"@
    }
}

/// The generated name of the input at `index` named `name`: `p` and the index
/// where the input is unnamed, else its name in snake case.
pub open spec fn input_name(index: nat, name: Seq<char>) -> Seq<char> {
    if name.len() == 0 {
        safe_ident("p"@ + decimal(index))
    } else {
        safe_ident(snake_case_of(name))
    }
}

/// The method name derived from a function's own name.
pub open spec fn method_name(name: Seq<char>) -> Seq<char> {
    safe_ident(snake_case_of(name))
}

/// `s` itself where it is a usable identifier, else `s` with an underscore
/// appended.
pub fn safe_identifier(s: String) -> (r: String)
    ensures
        r@ == safe_ident(s@),
{
    if parses_as_identifier(s.as_str()) {
        s
    } else {
        let mut r = s;
        r.append("_");
        r
    }
}

/// The generated name of the input at `index` named `name`.
pub fn expand_input_name(index: usize, name: &str) -> (r: String)
    ensures
        r@ == input_name(index as nat, name@),
{
    if name.is_empty() {
        let mut s = String::from_str("p");
        push_decimal(&mut s, index);
        safe_identifier(s)
    } else {
        safe_identifier(to_snake_case(name))
    }
}

/// The method name derived from a function's own name.
pub fn expand_method_name(name: &str) -> (r: String)
    ensures
        r@ == method_name(name@),
{
    safe_identifier(to_snake_case(name))
}

} // verus!

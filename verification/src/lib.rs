//! Checks that an enum-to-enum `match` is surjective (every output variant is
//! produced), injective (no two arms produce the same output variant) or
//! bijective (both), for attributes on functions returning a `match` and on
//! `let _ = match ...;` bindings.
//!
//! The checks read the outermost `match` of the annotated item into a plain
//! model (`model`), validate and analyse it (`validation`), and build what the
//! attribute expands to (`implementation`). `syntax` holds the contact with
//! `syn`, `quote` and `proc-macro2`; `laws` states properties of the checks.
pub mod implementation;
pub mod laws;
pub mod model;
pub mod syntax;
pub mod validation;

use crate::implementation::{
    applies, expand_binding, expand_binding_checked, expand_function, expands_to, expansion_of,
    item_arms, AnnotatedItem,
};
use crate::syntax::{
    parse_binding, parse_item_fn, parsed_binding, parsed_item_fn, syn_error_message,
    syn_error_text, token_stream_text, token_text,
};
use proc_macro2::TokenStream;
use vstd::prelude::*;

pub use implementation::{impl_biject_macro, impl_inject_macro, impl_surject_macro, Property};
pub use model::{ArmBody, ArmShape, MacroError, OutputPath, VariantPath};
pub use syntax::MatchFinder;

verus! {

/// The item that an attribute's input holds: a function, else a `let`
/// statement, else none.
pub open spec fn parsed_item(input: TokenStream) -> Option<AnnotatedItem> {
    match parsed_item_fn(input) {
        Ok(func) => Some(AnnotatedItem::Function(func)),
        Err(_) => match parsed_binding(input) {
            Some(binding) => Some(AnnotatedItem::Binding(binding)),
            None => None,
        },
    }
}

/// The input holds an item whose mapping `property` can expand.
pub open spec fn attribute_applies(property: Property, input: TokenStream) -> bool {
    parsed_item(input) matches Some(item) && applies(property, item)
}

/// `r` is what an attribute checking `property` expands the input to.
pub open spec fn attribute_expansion(property: Property, input: TokenStream, r: TokenStream) -> bool {
    parsed_item(input) matches Some(item) && expansion_of(property, item, item_arms(item)->0, r)
}

/// What an attribute checking `property`, with arguments `attr`, answers for
/// the input: `NotAFunction` with the parser's message for a function where
/// the input holds neither a function nor a `let` statement; else what
/// `expands_to` gives for the item and the text of `attr`.
pub open spec fn attribute_answer(
    property: Property,
    attr: TokenStream,
    input: TokenStream,
    r: Result<TokenStream, MacroError>,
) -> bool {
    match parsed_item(input) {
        None => r matches Err(MacroError::NotAFunction(t)) && t@ == syn_error_message(
            parsed_item_fn(input)->Err_0,
        ),
        Some(item) => expands_to(property, token_stream_text(attr), item, r),
    }
}

/// What an attribute checking `property` expands an input that it can
/// expand to.
fn expand_input(property: Property, attr: TokenStream, input: TokenStream) -> (r: TokenStream)
    requires
        attribute_applies(property, input),
    ensures
        attribute_expansion(property, input, r),
{
    let attr_text = token_text(&attr);
    match parse_item_fn(&input) {
        Ok(func) => match property {
            Property::Surjective => impl_surject_macro(attr_text.as_str(), &func),
            Property::Injective => impl_inject_macro(attr_text.as_str(), &func),
            Property::Bijective => impl_biject_macro(attr_text.as_str(), &func),
        },
        Err(_) => match parse_binding(&input) {
            Some(binding) => expand_binding(property, attr_text.as_str(), &binding),
            None => vstd::pervasive::unreached(),
        },
    }
}

/// What an attribute checking `property` answers for any input.
fn answer(property: Property, attr: TokenStream, input: TokenStream) -> (r: Result<
    TokenStream,
    MacroError,
>)
    ensures
        attribute_answer(property, attr, input, r),
{
    let attr_text = token_text(&attr);
    match parse_item_fn(&input) {
        Ok(func) => expand_function(property, attr_text.as_str(), &func),
        Err(e) => match parse_binding(&input) {
            Some(binding) => expand_binding_checked(property, attr_text.as_str(), &binding),
            None => Err(MacroError::NotAFunction(syn_error_text(&e))),
        },
    }
}

/// `#[surjective]`: verifies that the annotated function's (or `let`
/// binding's) `match` expression is surjective (onto), every variant of the
/// output enum being produced by at least one arm. Expands to the item
/// followed by a companion function `surjectivity_check_<name>` whose
/// exhaustive `match` over the output type lists each produced variant once,
/// so that the compiler reports a variant that no arm produces. The item
/// must hold such a mapping: `check_surjective` answers any input.
pub fn surjective(attr: TokenStream, input: TokenStream) -> (r: TokenStream)
    requires
        attribute_applies(Property::Surjective, input),
    ensures
        attribute_expansion(Property::Surjective, input, r),
{
    expand_input(Property::Surjective, attr, input)
}

/// `#[onto]`: an alias for `#[surjective]`, expanding as it does.
pub fn onto(attr: TokenStream, input: TokenStream) -> (r: TokenStream)
    requires
        attribute_applies(Property::Surjective, input),
    ensures
        attribute_expansion(Property::Surjective, input, r),
{
    surjective(attr, input)
}

/// `#[injective]`: verifies that the annotated item's `match` expression is
/// injective (one-to-one), no two arms producing the same output variant.
/// Expands to a compile error at the second occurrence of the first repeated
/// output, or else to the item unchanged. The item must hold an enum-to-enum
/// mapping: `check_injective` answers any input.
pub fn injective(attr: TokenStream, input: TokenStream) -> (r: TokenStream)
    requires
        attribute_applies(Property::Injective, input),
    ensures
        attribute_expansion(Property::Injective, input, r),
{
    expand_input(Property::Injective, attr, input)
}

/// `#[one_to_one]`: an alias for `#[injective]`, expanding as it does.
pub fn one_to_one(attr: TokenStream, input: TokenStream) -> (r: TokenStream)
    requires
        attribute_applies(Property::Injective, input),
    ensures
        attribute_expansion(Property::Injective, input, r),
{
    injective(attr, input)
}

/// `#[bijective]`: verifies that the annotated item's `match` expression is
/// both injective and surjective. Injectivity is checked first: a repeated
/// output expands to a compile error; else the item is followed by a
/// companion function `bijectivity_check_<name>` as for `#[surjective]`. The
/// item must hold such a mapping: `check_bijective` answers any input.
pub fn bijective(attr: TokenStream, input: TokenStream) -> (r: TokenStream)
    requires
        attribute_applies(Property::Bijective, input),
    ensures
        attribute_expansion(Property::Bijective, input, r),
{
    expand_input(Property::Bijective, attr, input)
}

/// `#[surjective]` on any input: its expansion, or the error it is refused
/// with.
pub fn check_surjective(attr: TokenStream, input: TokenStream) -> (r: Result<
    TokenStream,
    MacroError,
>)
    ensures
        attribute_answer(Property::Surjective, attr, input, r),
{
    answer(Property::Surjective, attr, input)
}

/// `#[onto]` on any input: as `check_surjective`.
pub fn check_onto(attr: TokenStream, input: TokenStream) -> (r: Result<TokenStream, MacroError>)
    ensures
        attribute_answer(Property::Surjective, attr, input, r),
{
    check_surjective(attr, input)
}

/// `#[injective]` on any input: its expansion, or the error it is refused
/// with.
pub fn check_injective(attr: TokenStream, input: TokenStream) -> (r: Result<
    TokenStream,
    MacroError,
>)
    ensures
        attribute_answer(Property::Injective, attr, input, r),
{
    answer(Property::Injective, attr, input)
}

/// `#[one_to_one]` on any input: as `check_injective`.
pub fn check_one_to_one(attr: TokenStream, input: TokenStream) -> (r: Result<
    TokenStream,
    MacroError,
>)
    ensures
        attribute_answer(Property::Injective, attr, input, r),
{
    check_injective(attr, input)
}

/// `#[bijective]` on any input: its expansion, or the error it is refused
/// with.
pub fn check_bijective(attr: TokenStream, input: TokenStream) -> (r: Result<
    TokenStream,
    MacroError,
>)
    ensures
        attribute_answer(Property::Bijective, attr, input, r),
{
    answer(Property::Bijective, attr, input)
}

} // verus!

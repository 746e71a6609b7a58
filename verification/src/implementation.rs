//! What each attribute expands to: the annotated item itself, a compile error
//! at the first repeated output, or the item followed by a companion function
//! whose exhaustive `match` over the output type makes the compiler check
//! that every variant is produced.
//!
//! The functions that expand an item require it to hold a valid mapping, as
//! the attributes panic on any other; `expand_function` and
//! `expand_binding_checked` test that first and answer with the error.
use crate::model::{
    arms_valid, bodies_are_paths, is_arm_error, lemma_first_arm_error_none, output_key,
    output_path, validation, ArmShape, MacroError,
};
use crate::syntax::{
    append_tokens, appended, arm_shapes, clone_tokens, binding_arms, call_site, compile_error_at,
    compile_error_tokens, empty_group_tokens, find_outermost_binding_match, find_outermost_match,
    fn_tokens, function_tokens, binding_tokens, group_token, group_tokens, ident_token,
    ident_tokens, is_ascii_ident, let_tokens, match_arms, outermost_arms, prefixed_name_token,
    prefixed_name_tokens, punct_token, punct_tokens, GroupDelimiter,
};
use crate::validation::{
    check_arms, check_enum_to_enum_arms, enum_type_of_expr, enum_type_tokens,
    first_repeated_output, injectivity_message, injectivity_text, joined_tokens, keys_distinct,
    repeats_earlier, surjectivity_check_arms, validate_enum_to_enum_arms,
};
use proc_macro2::{Span, TokenStream};
use vstd::prelude::*;
use vstd::string::StringExecFns;

verus! {

/// Which property an attribute checks.
#[derive(Clone, Copy, Debug, PartialEq, Eq, Structural)]
pub enum Property {
    /// Every output variant is produced (`#[surjective]`, `#[onto]`).
    Surjective,
    /// No two arms produce the same output (`#[injective]`, `#[one_to_one]`).
    Injective,
    /// Both (`#[bijective]`).
    Bijective,
}

/// An annotated item, as the checks see it.
pub enum AnnotatedItem {
    /// A function whose outermost `match` is the mapping.
    Function(syn::ItemFn),
    /// A `let` statement (such as `let _ = match ... ;`) whose outermost
    /// `match` is the mapping.
    Binding(syn::Local),
}

/// An annotated item, borrowed.
pub enum Annotated<'a> {
    Function(&'a syn::ItemFn),
    Binding(&'a syn::Local),
}

impl<'a> View for Annotated<'a> {
    type V = AnnotatedItem;

    open spec fn view(&self) -> AnnotatedItem {
        match *self {
            Annotated::Function(func) => AnnotatedItem::Function(*func),
            Annotated::Binding(binding) => AnnotatedItem::Binding(*binding),
        }
    }
}

/// What the checks read of the arms of the item's outermost `match`.
pub open spec fn item_arms(item: AnnotatedItem) -> Option<Seq<ArmShape>> {
    match item {
        AnnotatedItem::Function(func) => outermost_arms(func),
        AnnotatedItem::Binding(binding) => binding_arms(binding),
    }
}

/// The item as tokens.
pub open spec fn item_tokens(item: AnnotatedItem) -> TokenStream {
    match item {
        AnnotatedItem::Function(func) => function_tokens(func),
        AnnotatedItem::Binding(binding) => binding_tokens(binding),
    }
}

/// The prefix of the companion function's name.
pub open spec fn companion_prefix(property: Property) -> Seq<char> {
    if property is Bijective {
        "bijectivity_check_"@
    } else {
        "surjectivity_check_"@
    }
}

/// Arm `j` is the first arm whose output an earlier arm already produces.
pub open spec fn is_first_repeat(arms: Seq<ArmShape>, j: int) -> bool {
    &&& 0 <= j < arms.len()
    &&& repeats_earlier(arms, j)
    &&& forall|k: int| 0 <= k < j ==> !#[trigger] repeats_earlier(arms, k)
}

/// The first arm whose output an earlier arm already produces.
pub open spec fn first_repeat(arms: Seq<ArmShape>) -> int {
    choose|j: int| is_first_repeat(arms, j)
}

/// The expansion of `property` needs the companion function: surjectivity
/// is asked, and (for `Bijective`) injectivity holds.
pub open spec fn needs_companion(property: Property, arms: Seq<ArmShape>) -> bool {
    property is Surjective || (property is Bijective && keys_distinct(arms))
}

/// The first output's path names no enum type.
pub open spec fn first_path_short(arms: Seq<ArmShape>) -> bool {
    output_path(arms[0]).segments@.len() < 2
}

/// `property` can expand the mapping that was found (if any): there is one,
/// its arms are valid, and where the companion function is needed the first
/// output's path names an enum type.
pub open spec fn applies_to(property: Property, found: Option<Seq<ArmShape>>) -> bool {
    &&& found matches Some(arms)
    &&& validation(arms) is None
    &&& needs_companion(property, arms) ==> !first_path_short(arms)
}

/// `property` can expand the item.
pub open spec fn applies(property: Property, item: AnnotatedItem) -> bool {
    applies_to(property, item_arms(item))
}

/// `e` is the error for an item whose found mapping `property` cannot
/// expand: `NoMatch` with the attribute text where no `match` was found; the
/// first rule the arms break; or `ShortPath` with the first output's path.
pub open spec fn obstacle_of(
    property: Property,
    attr: Seq<char>,
    found: Option<Seq<ArmShape>>,
    e: MacroError,
) -> bool {
    match found {
        None => e matches MacroError::NoMatch(a) && a@ == attr,
        Some(arms) => match validation(arms) {
            Some(v) => e == v,
            None => needs_companion(property, arms) && first_path_short(arms) && (e matches MacroError::ShortPath(t) && t@ == output_path(arms[0]).text@),
        },
    }
}

/// The identifier of the companion function: `prefix` then the function's
/// name at its span, or `prefix` then `binding` for a `let` statement.
pub open spec fn companion_name(item: AnnotatedItem, prefix: Seq<char>, cs: Span) -> TokenStream {
    match item {
        AnnotatedItem::Function(func) => prefixed_name_tokens(prefix, func),
        AnnotatedItem::Binding(_) => ident_tokens(prefix + "binding"@, cs),
    }
}

/// `#[expect(dead_code)] fn NAME(output: TYPE) { match output { ARMS } }`,
/// its own tokens at `cs`.
pub open spec fn companion_fn_tokens(
    name: TokenStream,
    output_type: TokenStream,
    arms: Seq<TokenStream>,
    cs: Span,
) -> TokenStream {
    let attribute = group_tokens(
        GroupDelimiter::Bracket,
        appended(
            ident_tokens("expect"@, cs),
            group_tokens(GroupDelimiter::Parenthesis, ident_tokens("dead_code"@, cs), cs),
        ),
        cs,
    );
    let parameters = group_tokens(
        GroupDelimiter::Parenthesis,
        appended(appended(ident_tokens("output"@, cs), punct_tokens(':', false, cs)), output_type),
        cs,
    );
    let body = group_tokens(
        GroupDelimiter::Brace,
        appended(
            appended(ident_tokens("match"@, cs), ident_tokens("output"@, cs)),
            group_tokens(GroupDelimiter::Brace, joined_tokens(arms), cs),
        ),
        cs,
    );
    appended(
        appended(
            appended(appended(appended(punct_tokens('#', false, cs), attribute), ident_tokens(
                "fn"@,
                cs,
            )), name),
            parameters,
        ),
        body,
    )
}

/// The companion function of a valid mapping of `item`: named after the
/// item, matching on the enum type of the first output, with one arm per
/// distinct output; inside a block for a `let` statement.
pub open spec fn companion_tokens(
    item: AnnotatedItem,
    property: Property,
    arms: Seq<ArmShape>,
    cs: Span,
) -> TokenStream {
    let f = companion_fn_tokens(
        companion_name(item, companion_prefix(property), cs),
        enum_type_tokens(output_path(arms[0]), cs),
        check_arms(arms, cs),
        cs,
    );
    if item is Binding {
        group_tokens(GroupDelimiter::Brace, f, cs)
    } else {
        f
    }
}

/// `r` is what `property` expands `item`, with the valid mapping `arms`, to:
/// for `Injective` and `Bijective`, a repeated output gives a compile error
/// at its first repetition, naming it; `Injective` otherwise gives the item
/// unchanged; `Surjective` and `Bijective` otherwise give the item followed
/// by its companion function, whose own tokens are at the call site of the
/// expansion.
pub open spec fn expansion_of(
    property: Property,
    item: AnnotatedItem,
    arms: Seq<ArmShape>,
    r: TokenStream,
) -> bool {
    if !(property is Surjective) && !keys_distinct(arms) {
        let j = first_repeat(arms);
        r == compile_error_tokens(arms[j].body->Path_0.span, injectivity_text(output_key(arms[j])))
    } else if property is Injective {
        r == item_tokens(item)
    } else {
        exists|cs: Span| r == appended(item_tokens(item), #[trigger] companion_tokens(item, property, arms, cs))
    }
}

/// What an attribute checking `property`, with arguments `attr`, answers
/// for `item`: its expansion where it holds a mapping that `property` can
/// expand, else the error.
pub open spec fn expands_to(
    property: Property,
    attr: Seq<char>,
    item: AnnotatedItem,
    r: Result<TokenStream, MacroError>,
) -> bool {
    if applies(property, item) {
        r matches Ok(t) && expansion_of(property, item, item_arms(item)->0, t)
    } else {
        r matches Err(e) && obstacle_of(property, attr, item_arms(item), e)
    }
}

/// What looking up and validating the `match` can answer with.
pub open spec fn is_lookup_error(attr: Seq<char>, e: MacroError) -> bool {
    ||| (e matches MacroError::NoMatch(a) && a@ == attr)
    ||| is_arm_error(e)
}

/// The arms found, as values.
pub open spec fn found_view(found: Option<Vec<ArmShape>>) -> Option<Seq<ArmShape>> {
    match found {
        Some(v) => Some(v@),
        None => None,
    }
}

/// At most one arm is the first repeat.
pub proof fn lemma_first_repeat_unique(arms: Seq<ArmShape>, j: int)
    requires
        is_first_repeat(arms, j),
    ensures
        first_repeat(arms) == j,
{
    let k = first_repeat(arms);
    assert(is_first_repeat(arms, k));
    if k < j {
        assert(!repeats_earlier(arms, k));
    } else if j < k {
        assert(!repeats_earlier(arms, j));
    }
}

/// The `match` of an item, validated: `NoMatch` (with the attribute text)
/// where none was found, else what checking its arms answers.
pub fn validate_found(attr: &str, found: Option<Vec<ArmShape>>) -> (r: Result<
    Vec<ArmShape>,
    MacroError,
>)
    ensures
        found is None ==> (r matches Err(MacroError::NoMatch(a)) && a@ == attr@),
        found matches Some(arms) ==> r == (match validation(arms@) {
            None => Ok(arms),
            Some(e) => Err(e),
        }),
        r matches Ok(arms) ==> arms_valid(arms@),
        r matches Err(e) ==> is_lookup_error(attr@, e),
{
    match found {
        None => Err(MacroError::NoMatch(String::from_str(attr))),
        Some(arms) => {
            proof {
                lemma_first_arm_error_none(arms@);
            }
            match check_enum_to_enum_arms(&arms) {
                Ok(()) => Ok(arms),
                Err(e) => Err(e),
            }
        },
    }
}

/// What the checks read of the arms of the item's outermost `match`.
pub fn found_arms(item: &Annotated) -> (r: Option<Vec<ArmShape>>)
    ensures
        found_view(r) == item_arms(item@),
{
    let found = match item {
        Annotated::Function(func) => find_outermost_match(func),
        Annotated::Binding(binding) => find_outermost_binding_match(binding),
    };
    match found {
        Some(m) => Some(arm_shapes(match_arms(m))),
        None => None,
    }
}

/// The item as tokens.
fn item_token_stream(item: &Annotated) -> (r: TokenStream)
    ensures
        r == item_tokens(item@),
{
    match item {
        Annotated::Function(func) => fn_tokens(func),
        Annotated::Binding(binding) => let_tokens(binding),
    }
}

/// The arms of the outermost `match` of `func`, which must map enum variant
/// paths to enum variant paths without guards.
pub fn find_and_validate(attr: &str, func: &syn::ItemFn) -> (r: Vec<ArmShape>)
    requires
        outermost_arms(*func) matches Some(s) && validation(s) is None,
    ensures
        Some(r@) == outermost_arms(*func),
        arms_valid(r@),
{
    let arms = match find_outermost_match(func) {
        Some(m) => arm_shapes(match_arms(m)),
        None => vstd::pervasive::unreached(),
    };
    validate_enum_to_enum_arms(&arms);
    proof {
        lemma_first_arm_error_none(arms@);
    }
    arms
}

/// Why `property` cannot expand the mapping found, or `None` where it can.
pub fn mapping_obstacle(property: Property, attr: &str, found: &Option<Vec<ArmShape>>) -> (r:
    Option<MacroError>)
    ensures
        r is None <==> applies_to(property, found_view(*found)),
        r matches Some(e) ==> obstacle_of(property, attr@, found_view(*found), e),
{
    match found {
        None => Some(MacroError::NoMatch(String::from_str(attr))),
        Some(arms) => {
            proof {
                lemma_first_arm_error_none(arms@);
            }
            match check_enum_to_enum_arms(arms) {
                Err(e) => Some(e),
                Ok(()) => {
                    assert(crate::model::arm_error(arms@[0]) is None);
                    let needs = match property {
                        Property::Surjective => true,
                        Property::Injective => false,
                        Property::Bijective => {
                            assert(bodies_are_paths(arms@)) by {
                                lemma_valid_bodies(arms@);
                            }
                            first_repeated_output(arms).is_none()
                        },
                    };
                    let first = arms[0].body.as_expr_path();
                    if needs && first.path.segments.len() < 2 {
                        Some(MacroError::ShortPath(first.path.text.clone()))
                    } else {
                        None
                    }
                },
            }
        },
    }
}

/// Every arm of a valid mapping has a path body.
pub proof fn lemma_valid_bodies(arms: Seq<ArmShape>)
    requires
        arms_valid(arms),
    ensures
        bodies_are_paths(arms),
{
    assert forall|i: int| 0 <= i < arms.len() implies (#[trigger] arms[i]).body is Path by {
        assert(crate::model::arm_error(arms[i]) is None);
    }
}

/// The first arm whose output an earlier arm already produces, with the
/// message of the error it is answered with; `None` when no output repeats.
pub fn injectivity_violation(arms: &Vec<ArmShape>) -> (r: Option<(usize, String)>)
    requires
        bodies_are_paths(arms@),
    ensures
        r is None <==> keys_distinct(arms@),
        r matches Some((j, m)) ==> is_first_repeat(arms@, j as int) && m@ == injectivity_text(
            output_key(arms@[j as int]),
        ),
{
    match first_repeated_output(arms) {
        None => None,
        Some(j) => {
            assert(arms@[j as int].body is Path);
            let m = injectivity_message(arms[j].body.as_expr_path().text.as_str());
            Some((j, m))
        },
    }
}

/// The identifier of the companion function.
fn companion_name_token(property: Property, item: &Annotated, cs: Span) -> (r: TokenStream)
    ensures
        r == companion_name(item@, companion_prefix(property), cs),
{
    proof {
        reveal_strlit("surjectivity_check_");
        reveal_strlit("bijectivity_check_");
        reveal_strlit("surjectivity_check_binding");
        reveal_strlit("bijectivity_check_binding");
        reveal_strlit("binding");
        assert("surjectivity_check_"@ + "binding"@ =~= "surjectivity_check_binding"@);
        assert("bijectivity_check_"@ + "binding"@ =~= "bijectivity_check_binding"@);
    }
    match item {
        Annotated::Function(func) => {
            if property == Property::Bijective {
                prefixed_name_token("bijectivity_check_", func)
            } else {
                prefixed_name_token("surjectivity_check_", func)
            }
        },
        Annotated::Binding(_) => {
            if property == Property::Bijective {
                ident_token("bijectivity_check_binding", cs)
            } else {
                ident_token("surjectivity_check_binding", cs)
            }
        },
    }
}

/// The identifier `text` at `cs`, for the fixed words of the companion.
fn word(text: &str, cs: Span) -> (r: TokenStream)
    requires
        text@ == "expect"@ || text@ == "dead_code"@ || text@ == "fn"@ || text@ == "output"@
            || text@ == "match"@,
    ensures
        r == ident_tokens(text@, cs),
{
    proof {
        reveal_strlit("expect");
        reveal_strlit("dead_code");
        reveal_strlit("fn");
        reveal_strlit("output");
        reveal_strlit("match");
    }
    ident_token(text, cs)
}

/// The tokens of `parts`, one after the other.
fn join_tokens(parts: &Vec<TokenStream>) -> (r: TokenStream)
    requires
        parts@.len() >= 1,
    ensures
        r == joined_tokens(parts@),
{
    let n: usize = parts.len();
    let ghost all = parts@;
    let mut t = clone_tokens(&parts[0]);
    let mut k: usize = 1;
    assert(all.take(1) =~= seq![all[0]]);
    while k < n
        invariant
            n == all.len(),
            all == parts@,
            1 <= k <= n,
            t == joined_tokens(all.take(k as int)),
        decreases n - k,
    {
        append_tokens(&mut t, clone_tokens(&parts[k]));
        assert(all.take(k + 1).drop_last() =~= all.take(k as int));
        k += 1;
    }
    assert(all.take(n as int) =~= all);
    t
}

/// The companion function of a valid mapping of `item`.
fn companion(property: Property, item: &Annotated, arms: &Vec<ArmShape>, cs: Span) -> (r:
    TokenStream)
    requires
        arms_valid(arms@),
        !first_path_short(arms@),
    ensures
        r == companion_tokens(item@, property, arms@, cs),
{
    proof {
        lemma_valid_bodies(arms@);
        reveal_strlit("expect");
        reveal_strlit("dead_code");
        reveal_strlit("fn");
        reveal_strlit("output");
        reveal_strlit("match");
    }
    let name = companion_name_token(property, item, cs);
    let output_type = enum_type_of_expr(arms[0].body.as_expr_path(), cs);
    let check_arms = surjectivity_check_arms(arms, cs);
    proof {
        crate::validation::lemma_first_occurrences_nonempty(arms@);
    }
    let arms_tokens = join_tokens(&check_arms);
    let attribute_inner = {
        let mut a = word("expect", cs);
        append_tokens(
            &mut a,
            group_token(GroupDelimiter::Parenthesis, word("dead_code", cs), cs),
        );
        a
    };
    let mut parameters_inner = word("output", cs);
    append_tokens(&mut parameters_inner, punct_token(':', false, cs));
    append_tokens(&mut parameters_inner, output_type);
    let mut body_inner = word("match", cs);
    append_tokens(&mut body_inner, word("output", cs));
    append_tokens(&mut body_inner, group_token(GroupDelimiter::Brace, arms_tokens, cs));
    let mut f = punct_token('#', false, cs);
    append_tokens(&mut f, group_token(GroupDelimiter::Bracket, attribute_inner, cs));
    append_tokens(&mut f, word("fn", cs));
    append_tokens(&mut f, name);
    append_tokens(&mut f, group_token(GroupDelimiter::Parenthesis, parameters_inner, cs));
    append_tokens(&mut f, group_token(GroupDelimiter::Brace, body_inner, cs));
    match item {
        Annotated::Binding(_) => group_token(GroupDelimiter::Brace, f, cs),
        Annotated::Function(_) => f,
    }
}

/// What `property` expands `item`, whose mapping `arms` it can expand, to.
fn expand_arms(property: Property, item: &Annotated, arms: &Vec<ArmShape>) -> (r: TokenStream)
    requires
        item_arms(item@) == Some(arms@),
        applies(property, item@),
    ensures
        expansion_of(property, item@, arms@, r),
{
    proof {
        lemma_first_arm_error_none(arms@);
        lemma_valid_bodies(arms@);
    }
    if property != Property::Surjective {
        match injectivity_violation(arms) {
            Some((j, message)) => {
                let span = arms[j].body.as_expr_path().span;
                proof {
                    lemma_first_repeat_unique(arms@, j as int);
                }
                return compile_error_at(span, message.as_str());
            },
            None => {},
        }
        if property == Property::Injective {
            return item_token_stream(item);
        }
    }
    let cs = call_site();
    let mut out = item_token_stream(item);
    append_tokens(&mut out, companion(property, item, arms, cs));
    out
}

/// `#[surjective]` (and `#[onto]`) on a function: the function followed by
/// `surjectivity_check_<name>`, whose `match` over the output type covers
/// each distinct output once, so that the compiler reports any variant that
/// no arm produces.
pub fn impl_surject_macro(attr: &str, func: &syn::ItemFn) -> (r: TokenStream)
    requires
        applies(Property::Surjective, AnnotatedItem::Function(*func)),
    ensures
        expansion_of(
            Property::Surjective,
            AnnotatedItem::Function(*func),
            outermost_arms(*func)->0,
            r,
        ),
{
    let arms = find_and_validate(attr, func);
    expand_arms(Property::Surjective, &Annotated::Function(func), &arms)
}

/// `#[injective]` (and `#[one_to_one]`) on a function: a compile error at
/// the first output produced by more than one arm, else the function
/// unchanged.
pub fn impl_inject_macro(attr: &str, func: &syn::ItemFn) -> (r: TokenStream)
    requires
        applies(Property::Injective, AnnotatedItem::Function(*func)),
    ensures
        expansion_of(
            Property::Injective,
            AnnotatedItem::Function(*func),
            outermost_arms(*func)->0,
            r,
        ),
{
    let arms = find_and_validate(attr, func);
    expand_arms(Property::Injective, &Annotated::Function(func), &arms)
}

/// `#[bijective]` on a function: a compile error at the first output
/// produced by more than one arm; else the function followed by
/// `bijectivity_check_<name>`, whose `match` makes the compiler report any
/// variant that no arm produces.
pub fn impl_biject_macro(attr: &str, func: &syn::ItemFn) -> (r: TokenStream)
    requires
        applies(Property::Bijective, AnnotatedItem::Function(*func)),
    ensures
        expansion_of(
            Property::Bijective,
            AnnotatedItem::Function(*func),
            outermost_arms(*func)->0,
            r,
        ),
{
    let arms = find_and_validate(attr, func);
    expand_arms(Property::Bijective, &Annotated::Function(func), &arms)
}

/// An attribute checking `property` on a `let` statement: as on a function,
/// with the statement in place of the function and the companion function
/// (`..._check_binding`) inside a block after it.
pub fn expand_binding(property: Property, attr: &str, binding: &syn::Local) -> (r: TokenStream)
    requires
        applies(property, AnnotatedItem::Binding(*binding)),
    ensures
        expansion_of(
            property,
            AnnotatedItem::Binding(*binding),
            binding_arms(*binding)->0,
            r,
        ),
{
    let item = Annotated::Binding(binding);
    let arms = match found_arms(&item) {
        Some(arms) => arms,
        None => vstd::pervasive::unreached(),
    };
    validate_enum_to_enum_arms(&arms);
    expand_arms(property, &item, &arms)
}

/// An attribute checking `property` on a function: what `impl_*_macro`
/// gives where the function holds a mapping that `property` can expand, else
/// the error the attribute answers with.
pub fn expand_function(property: Property, attr: &str, func: &syn::ItemFn) -> (r: Result<
    TokenStream,
    MacroError,
>)
    ensures
        expands_to(property, attr@, AnnotatedItem::Function(*func), r),
{
    let found = found_arms(&Annotated::Function(func));
    match mapping_obstacle(property, attr, &found) {
        Some(e) => Err(e),
        None => Ok(
            match property {
                Property::Surjective => impl_surject_macro(attr, func),
                Property::Injective => impl_inject_macro(attr, func),
                Property::Bijective => impl_biject_macro(attr, func),
            },
        ),
    }
}

/// An attribute checking `property` on a `let` statement: what
/// `expand_binding` gives where the statement holds a mapping that
/// `property` can expand, else the error the attribute answers with.
pub fn expand_binding_checked(property: Property, attr: &str, binding: &syn::Local) -> (r: Result<
    TokenStream,
    MacroError,
>)
    ensures
        expands_to(property, attr@, AnnotatedItem::Binding(*binding), r),
{
    let found = found_arms(&Annotated::Binding(binding));
    match mapping_obstacle(property, attr, &found) {
        Some(e) => Err(e),
        None => Ok(expand_binding(property, attr, binding)),
    }
}

} // verus!

//! The crate's contact with `syn`, `quote` and `proc-macro2`: the outside types
//! it carries, the visitor that finds the `match`, and the trusted wrappers that
//! read syntax trees into the plain model and turn plain text back into tokens.
use crate::model::{ArmBody, ArmShape, OutputPath, VariantPath};
use proc_macro2::{Delimiter, Group, Ident, Punct, Spacing, Span, TokenStream, TokenTree};
use quote::ToTokens;
use syn::ext::IdentExt;
use syn::spanned::Spanned;
use syn::visit::Visit;
use vstd::prelude::*;

verus! {

#[verifier::external_type_specification]
#[verifier::external_body]
pub struct ExSpan(Span);

#[verifier::external_type_specification]
#[verifier::external_body]
pub struct ExTokenStream(TokenStream);


#[verifier::external_type_specification]
#[verifier::external_body]
pub struct ExItemFn(syn::ItemFn);

#[verifier::external_type_specification]
#[verifier::external_body]
pub struct ExExprMatch(syn::ExprMatch);

#[verifier::external_type_specification]
#[verifier::external_body]
pub struct ExArm(syn::Arm);

#[verifier::external_type_specification]
#[verifier::external_body]
pub struct ExExprPath(syn::ExprPath);

#[verifier::external_type_specification]
#[verifier::external_body]
pub struct ExSynError(syn::Error);

#[verifier::external_type_specification]
#[verifier::external_body]
pub struct ExLocal(syn::Local);

/// The delimiter of a group of tokens.
#[derive(Clone, Copy, Debug)]
pub enum GroupDelimiter {
    /// `( ... )`
    Parenthesis,
    /// `{ ... }`
    Brace,
    /// `[ ... ]`
    Bracket,
}

/// The match that a finder holds after meeting `node`: the first one it met.
pub open spec fn visit_step<'ast>(
    found: Option<&'ast syn::ExprMatch>,
    node: &'ast syn::ExprMatch,
) -> Option<&'ast syn::ExprMatch> {
    if found is None {
        Some(node)
    } else {
        found
    }
}

/// A visitor that records the first `match` expression it meets and does not
/// look inside it, so that it keeps the outermost one.
pub struct MatchFinder<'ast> {
    pub found: Option<&'ast syn::ExprMatch>,
}

impl<'ast> Visit<'ast> for MatchFinder<'ast> {
    fn visit_expr_match(&mut self, node: &'ast syn::ExprMatch)
        ensures
            final(self).found == visit_step(old(self).found, node),
    {
        if self.found.is_none() {
            self.found = Some(node);
        }
    }
}

/// The `match` that `Visit::visit_item_fn` hands first to a `MatchFinder` when
/// walking `func`: the first `match` expression in source order that stands
/// inside no other one.
pub uninterp spec fn outermost_match(func: syn::ItemFn) -> Option<syn::ExprMatch>;

/// The `match` that `Visit::visit_local` hands first to a `MatchFinder` when
/// walking the `let` statement `binding`.
pub uninterp spec fn outermost_binding_match(binding: syn::Local) -> Option<syn::ExprMatch>;

/// The arms of a `match` expression, in source order (its field `arms`).
pub uninterp spec fn match_arm_list(m: syn::ExprMatch) -> Seq<syn::Arm>;

/// Whether an arm's field `guard` holds an `if` guard.
pub uninterp spec fn arm_guard_present(arm: syn::Arm) -> bool;

/// Whether an arm's pattern is the variant `syn::Pat::Path`.
pub uninterp spec fn arm_pattern_path(arm: syn::Arm) -> bool;

/// An arm's body where it is the variant `syn::Expr::Path`.
pub uninterp spec fn arm_body_expr_path(arm: syn::Arm) -> Option<syn::ExprPath>;

/// A path expression as `render_output` reads it.
pub uninterp spec fn rendered_output(p: syn::ExprPath) -> OutputPath;

/// What `syn::parse2::<syn::ItemFn>` gives for these tokens.
pub uninterp spec fn parsed_item_fn(tokens: TokenStream) -> Result<syn::ItemFn, syn::Error>;

/// The `let` statement that `syn::parse2::<syn::Stmt>` reads these tokens as,
/// where it reads them as one.
pub uninterp spec fn parsed_binding(tokens: TokenStream) -> Option<syn::Local>;

/// The text of a parse error (its `Display`).
pub uninterp spec fn syn_error_message(e: syn::Error) -> Seq<char>;

/// The text of a token stream (its `Display`).
pub uninterp spec fn token_stream_text(tokens: TokenStream) -> Seq<char>;

/// A function item as tokens (`ToTokens::to_token_stream`).
pub uninterp spec fn function_tokens(func: syn::ItemFn) -> TokenStream;

/// A `let` statement as tokens (`ToTokens::to_token_stream`).
pub uninterp spec fn binding_tokens(binding: syn::Local) -> TokenStream;

/// The `compile_error!` invocation that `syn::Error::new(span, message)`
/// renders with `to_compile_error`.
pub uninterp spec fn compile_error_tokens(span: Span, message: Seq<char>) -> TokenStream;

/// The tokens of `first` followed by those of `more` (`Extend::extend`).
pub uninterp spec fn appended(first: TokenStream, more: TokenStream) -> TokenStream;

/// The punctuation character `ch` at `span`, joint with the next one or not.
pub uninterp spec fn punct_tokens(ch: char, joint: bool, span: Span) -> TokenStream;

/// The identifier `text` at `span`.
pub uninterp spec fn ident_tokens(text: Seq<char>, span: Span) -> TokenStream;

/// The identifier made of `prefix` and the name of `func` (without a raw `r#`
/// prefix), at the span of that name.
pub uninterp spec fn prefixed_name_tokens(prefix: Seq<char>, func: syn::ItemFn) -> TokenStream;

/// A group of `inner` in `delimiter`, at `span`.
pub uninterp spec fn group_tokens(delimiter: GroupDelimiter, inner: TokenStream, span: Span) -> TokenStream;

/// An empty group in `delimiter`, at `span`.
pub uninterp spec fn empty_group_tokens(delimiter: GroupDelimiter, span: Span) -> TokenStream;

/// What the checks read of an arm.
pub open spec fn shape_of(arm: syn::Arm) -> ArmShape {
    ArmShape {
        has_guard: arm_guard_present(arm),
        pattern_is_path: arm_pattern_path(arm),
        body: match arm_body_expr_path(arm) {
            Some(p) => ArmBody::Path(rendered_output(p)),
            None => ArmBody::Other,
        },
    }
}

/// What the checks read of the arms of a `match`, in order.
pub open spec fn shapes_of(m: syn::ExprMatch) -> Seq<ArmShape> {
    match_arm_list(m).map_values(|a: syn::Arm| shape_of(a))
}

/// What the checks read of the arms of the outermost `match` of `func`, in
/// order; `None` where `func` holds no `match`.
pub open spec fn outermost_arms(func: syn::ItemFn) -> Option<Seq<ArmShape>> {
    match outermost_match(func) {
        Some(m) => Some(shapes_of(m)),
        None => None,
    }
}

/// What the checks read of the arms of the outermost `match` of a `let`
/// statement, in order; `None` where it holds no `match`.
pub open spec fn binding_arms(binding: syn::Local) -> Option<Seq<ArmShape>> {
    match outermost_binding_match(binding) {
        Some(m) => Some(shapes_of(m)),
        None => None,
    }
}

/// A character that proc-macro2 accepts as punctuation.
pub open spec fn is_punct_char(ch: char) -> bool {
    ||| ch == '!' || ch == '#' || ch == '$' || ch == '%' || ch == '&' || ch == '\''
    ||| ch == '*' || ch == '+' || ch == ',' || ch == '-' || ch == '.' || ch == '/'
    ||| ch == ':' || ch == ';' || ch == '<' || ch == '=' || ch == '>' || ch == '?'
    ||| ch == '@' || ch == '^' || ch == '|' || ch == '~'
}

/// A character that may start an ASCII identifier.
pub open spec fn is_ascii_ident_start(ch: char) -> bool {
    ('a' <= ch && ch <= 'z') || ('A' <= ch && ch <= 'Z') || ch == '_'
}

/// A character that may continue an ASCII identifier.
pub open spec fn is_ascii_ident_continue(ch: char) -> bool {
    is_ascii_ident_start(ch) || ('0' <= ch && ch <= '9')
}

/// An ASCII identifier (keywords included).
pub open spec fn is_ascii_ident(text: Seq<char>) -> bool {
    &&& text.len() > 0
    &&& is_ascii_ident_start(text[0])
    &&& forall|i: int| 1 <= i < text.len() ==> is_ascii_ident_continue(#[trigger] text[i])
}

/// Walks `func` with syn's `Visit::visit_item_fn`, which visits the attributes,
/// signature and body in source order and hands each `match` expression it
/// reaches to `MatchFinder::visit_expr_match`; returns what the finder kept.
#[verifier::external_body]
pub(crate) fn find_outermost_match<'a>(func: &'a syn::ItemFn) -> (r: Option<&'a syn::ExprMatch>)
    ensures
        r is None <==> outermost_match(*func) is None,
        r matches Some(m) ==> outermost_match(*func) == Some(*m),
{
    let mut finder = MatchFinder { found: None };
    finder.visit_item_fn(func);
    finder.found
}

/// Walks a `let` statement with syn's `Visit::visit_local` (attributes,
/// pattern, initializer), handing each `match` expression it reaches to
/// `MatchFinder::visit_expr_match`; returns what the finder kept.
#[verifier::external_body]
pub(crate) fn find_outermost_binding_match<'a>(binding: &'a syn::Local) -> (r: Option<
    &'a syn::ExprMatch,
>)
    ensures
        r is None <==> outermost_binding_match(*binding) is None,
        r matches Some(m) ==> outermost_binding_match(*binding) == Some(*m),
{
    let mut finder = MatchFinder { found: None };
    finder.visit_local(binding);
    finder.found
}

/// The arms of a `match` expression (its field `arms`), in source order.
#[verifier::external_body]
pub(crate) fn match_arms<'a>(m: &'a syn::ExprMatch) -> (r: &'a [syn::Arm])
    ensures
        r@ == match_arm_list(*m),
{
    &m.arms
}

/// Whether the arm's field `guard` holds an `if` guard.
#[verifier::external_body]
fn arm_has_guard(arm: &syn::Arm) -> (r: bool)
    ensures
        r == arm_guard_present(*arm),
{
    arm.guard.is_some()
}

/// Whether the arm's pattern is the variant `syn::Pat::Path`.
#[verifier::external_body]
fn arm_pattern_is_path(arm: &syn::Arm) -> (r: bool)
    ensures
        r == arm_pattern_path(*arm),
{
    matches!(arm.pat, syn::Pat::Path(_))
}

/// The arm's body where it is the variant `syn::Expr::Path`.
#[verifier::external_body]
fn arm_body_path(arm: &syn::Arm) -> (r: Option<&syn::ExprPath>)
    ensures
        r is None <==> arm_body_expr_path(*arm) is None,
        r matches Some(p) ==> arm_body_expr_path(*arm) == Some(*p),
{
    match arm.body.as_ref() {
        syn::Expr::Path(p) => Some(p),
        _ => None,
    }
}

/// Reads a path expression: its text (quote's `ToTokens::to_token_stream`,
/// then proc-macro2's `Display`) and tokens; its path's text, leading `::`
/// and segments as tokens; and its span (`syn::spanned::Spanned::span`).
#[verifier::external_body]
fn render_output(p: &syn::ExprPath) -> (r: OutputPath)
    ensures
        r == rendered_output(*p),
{
    OutputPath {
        text: p.to_token_stream().to_string(),
        tokens: p.to_token_stream(),
        path: VariantPath {
            text: p.path.to_token_stream().to_string(),
            leading_colon: p.path.leading_colon.map(|c| c.to_token_stream()),
            segments: p.path.segments.iter().map(|s| s.to_token_stream()).collect(),
        },
        span: p.span(),
    }
}

/// What the checks read of one arm.
fn arm_shape(arm: &syn::Arm) -> (r: ArmShape)
    ensures
        r == shape_of(*arm),
{
    let has_guard = arm_has_guard(arm);
    let pattern_is_path = arm_pattern_is_path(arm);
    let body = match arm_body_path(arm) {
        Some(p) => ArmBody::Path(render_output(p)),
        None => ArmBody::Other,
    };
    ArmShape { has_guard, pattern_is_path, body }
}

/// What the checks read of each arm of a `match`, in order.
pub(crate) fn arm_shapes(arms: &[syn::Arm]) -> (r: Vec<ArmShape>)
    ensures
        r@ == arms@.map_values(|a: syn::Arm| shape_of(a)),
{
    let mut shapes: Vec<ArmShape> = Vec::new();
    let mut i: usize = 0;
    while i < arms.len()
        invariant
            0 <= i <= arms@.len(),
            shapes@ == arms@.take(i as int).map_values(|a: syn::Arm| shape_of(a)),
        decreases arms.len() - i,
    {
        shapes.push(arm_shape(&arms[i]));
        assert(arms@.take(i + 1) =~= arms@.take(i as int).push(arms@[i as int]));
        i += 1;
        assert(shapes@ =~= arms@.take(i as int).map_values(|a: syn::Arm| shape_of(a)));
    }
    assert(arms@.take(arms@.len() as int) =~= arms@);
    shapes
}

/// Parses tokens as a function item (`syn::parse2::<syn::ItemFn>` on a copy).
#[verifier::external_body]
pub(crate) fn parse_item_fn(tokens: &TokenStream) -> (r: Result<syn::ItemFn, syn::Error>)
    ensures
        r == parsed_item_fn(*tokens),
{
    syn::parse2::<syn::ItemFn>(tokens.clone())
}

/// Parses tokens as a statement (`syn::parse2::<syn::Stmt>` on a copy) and
/// keeps it where it is the variant `syn::Stmt::Local`.
#[verifier::external_body]
pub(crate) fn parse_binding(tokens: &TokenStream) -> (r: Option<syn::Local>)
    ensures
        r == parsed_binding(*tokens),
{
    match syn::parse2::<syn::Stmt>(tokens.clone()) {
        Ok(syn::Stmt::Local(binding)) => Some(binding),
        _ => None,
    }
}

/// The text of a parse error (its `Display`).
#[verifier::external_body]
pub(crate) fn syn_error_text(e: &syn::Error) -> (r: String)
    ensures
        r@ == syn_error_message(*e),
{
    e.to_string()
}

/// Tokens as text (proc-macro2's `Display`).
#[verifier::external_body]
pub(crate) fn token_text(tokens: &TokenStream) -> (r: String)
    ensures
        r@ == token_stream_text(*tokens),
{
    tokens.to_string()
}

/// The function as tokens (quote's `ToTokens::to_token_stream`).
#[verifier::external_body]
pub(crate) fn fn_tokens(func: &syn::ItemFn) -> (r: TokenStream)
    ensures
        r == function_tokens(*func),
{
    func.to_token_stream()
}

/// The `let` statement as tokens (quote's `ToTokens::to_token_stream`).
#[verifier::external_body]
pub(crate) fn let_tokens(binding: &syn::Local) -> (r: TokenStream)
    ensures
        r == binding_tokens(*binding),
{
    binding.to_token_stream()
}

/// A `compile_error!` invocation carrying `message` at `span`
/// (`syn::Error::new` and `syn::Error::to_compile_error`).
#[verifier::external_body]
pub(crate) fn compile_error_at(span: Span, message: &str) -> (r: TokenStream)
    ensures
        r == compile_error_tokens(span, message@),
{
    syn::Error::new(span, message).to_compile_error()
}

/// Appends `more` to `tokens` (`<TokenStream as Extend<TokenStream>>::extend`).
#[verifier::external_body]
pub(crate) fn append_tokens(tokens: &mut TokenStream, more: TokenStream)
    ensures
        *final(tokens) == appended(*old(tokens), more),
{
    tokens.extend(std::iter::once(more))
}

/// A copy of a token stream (`<TokenStream as Clone>::clone`), the same
/// tokens.
#[verifier::external_body]
pub(crate) fn clone_tokens(tokens: &TokenStream) -> (r: TokenStream)
    ensures
        r == *tokens,
{
    tokens.clone()
}

/// The span of the macro invocation being expanded (`Span::call_site`).
/// Nothing is stated of it: it depends on where the expansion runs.
#[verifier::external_body]
pub(crate) fn call_site() -> Span {
    Span::call_site()
}

/// The punctuation `ch` (`Punct::new`, with `Spacing::Joint` where `joint`,
/// then `Punct::set_span`), as tokens.
#[verifier::external_body]
pub(crate) fn punct_token(ch: char, joint: bool, span: Span) -> (r: TokenStream)
    requires
        is_punct_char(ch),
    ensures
        r == punct_tokens(ch, joint, span),
{
    let mut punct = Punct::new(ch, if joint { Spacing::Joint } else { Spacing::Alone });
    punct.set_span(span);
    TokenStream::from(TokenTree::Punct(punct))
}

/// The identifier `text` at `span` (`Ident::new`), as tokens.
#[verifier::external_body]
pub(crate) fn ident_token(text: &str, span: Span) -> (r: TokenStream)
    requires
        is_ascii_ident(text@),
    ensures
        r == ident_tokens(text@, span),
{
    TokenStream::from(TokenTree::Ident(Ident::new(text, span)))
}

/// The identifier `prefix` followed by the function's name without a raw
/// `r#` (`syn::ext::IdentExt::unraw`), at the span of that name
/// (`Ident::new`), as tokens.
#[verifier::external_body]
pub(crate) fn prefixed_name_token(prefix: &str, func: &syn::ItemFn) -> (r: TokenStream)
    requires
        is_ascii_ident(prefix@),
    ensures
        r == prefixed_name_tokens(prefix@, *func),
{
    let name = format!("{}{}", prefix, func.sig.ident.unraw());
    TokenStream::from(TokenTree::Ident(Ident::new(&name, func.sig.ident.span())))
}

/// A group of `inner` in `delimiter` (`Group::new`, then `Group::set_span`),
/// as tokens.
#[verifier::external_body]
pub(crate) fn group_token(delimiter: GroupDelimiter, inner: TokenStream, span: Span) -> (r:
    TokenStream)
    ensures
        r == group_tokens(delimiter, inner, span),
{
    let delimiter = match delimiter {
        GroupDelimiter::Parenthesis => Delimiter::Parenthesis,
        GroupDelimiter::Brace => Delimiter::Brace,
        GroupDelimiter::Bracket => Delimiter::Bracket,
    };
    let mut group = Group::new(delimiter, inner);
    group.set_span(span);
    TokenStream::from(TokenTree::Group(group))
}

/// An empty group in `delimiter` (`Group::new` of `TokenStream::new()`, then
/// `Group::set_span`), as tokens.
#[verifier::external_body]
pub(crate) fn empty_group_token(delimiter: GroupDelimiter, span: Span) -> (r: TokenStream)
    ensures
        r == empty_group_tokens(delimiter, span),
{
    let delimiter = match delimiter {
        GroupDelimiter::Parenthesis => Delimiter::Parenthesis,
        GroupDelimiter::Brace => Delimiter::Brace,
        GroupDelimiter::Bracket => Delimiter::Bracket,
    };
    let mut group = Group::new(delimiter, TokenStream::new());
    group.set_span(span);
    TokenStream::from(TokenTree::Group(group))
}

} // verus!

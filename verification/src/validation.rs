//! The checks on the arms of the `match`: its shape, whether two arms share an
//! output, the distinct outputs, and the enum type of an output path.
use crate::model::{
    arm_error, first_arm_error, output_key, texts, validation, bodies_are_paths, ArmBody, ArmShape,
    MacroError, OutputPath, VariantPath,
};
use vstd::prelude::*;
use vstd::string::StringExecFns;
use crate::syntax::{
    append_tokens, appended, clone_tokens, empty_group_token, empty_group_tokens, punct_token, punct_tokens,
    GroupDelimiter,
};
use proc_macro2::{Span, TokenStream};

verus! {

/// Arm `j` produces an output that an earlier arm already produces.
pub open spec fn repeats_earlier(arms: Seq<ArmShape>, j: int) -> bool {
    exists|i: int| 0 <= i < j && #[trigger] output_key(arms[i]) == output_key(arms[j])
}

/// No two arms produce the same output.
pub open spec fn keys_distinct(arms: Seq<ArmShape>) -> bool {
    forall|i: int, j: int|
        0 <= i < j < arms.len() ==> #[trigger] output_key(arms[i]) != #[trigger] output_key(
            arms[j],
        )
}

/// The outputs of the arms, each once, in the order of their first arm.
pub open spec fn distinct_outputs(arms: Seq<ArmShape>) -> Seq<Seq<char>>
    decreases arms.len(),
{
    if arms.len() == 0 {
        Seq::empty()
    } else {
        let prev = distinct_outputs(arms.drop_last());
        let k = output_key(arms.last());
        if prev.contains(k) {
            prev
        } else {
            prev.push(k)
        }
    }
}

/// The arms that produce each output first, in order: the arm of each
/// output of `distinct_outputs`.
pub open spec fn first_occurrences(arms: Seq<ArmShape>) -> Seq<ArmShape>
    decreases arms.len(),
{
    if arms.len() == 0 {
        Seq::empty()
    } else {
        let prev = first_occurrences(arms.drop_last());
        if distinct_outputs(arms.drop_last()).contains(output_key(arms.last())) {
            prev
        } else {
            prev.push(arms.last())
        }
    }
}

/// The tokens of an arm's output expression.
pub open spec fn output_tokens(arm: ArmShape) -> TokenStream {
    arm.body->Path_0.tokens
}

/// The tokens one after the other (at least one part).
pub open spec fn joined_tokens(parts: Seq<TokenStream>) -> TokenStream
    decreases parts.len(),
{
    if parts.len() <= 1 {
        parts[0]
    } else {
        appended(joined_tokens(parts.drop_last()), parts.last())
    }
}

/// The arm `OUTPUT => (),` of the companion `match`, its punctuation at `cs`.
pub open spec fn check_arm_tokens(output: TokenStream, cs: Span) -> TokenStream {
    appended(
        appended(
            appended(
                appended(output, punct_tokens('=', true, cs)),
                punct_tokens('>', false, cs),
            ),
            empty_group_tokens(GroupDelimiter::Parenthesis, cs),
        ),
        punct_tokens(',', false, cs),
    )
}

/// The arms of the companion `match`: one per distinct output, from the arm
/// that produces it first.
pub open spec fn check_arms(arms: Seq<ArmShape>, cs: Span) -> Seq<TokenStream> {
    first_occurrences(arms).map_values(|a: ArmShape| check_arm_tokens(output_tokens(a), cs))
}

/// The `::` between two segments of a path, at `cs`.
pub open spec fn path_separator(cs: Span) -> TokenStream {
    appended(punct_tokens(':', true, cs), punct_tokens(':', false, cs))
}

/// The segments joined by `::` (at least one segment).
pub open spec fn joined_segments(segments: Seq<TokenStream>, cs: Span) -> TokenStream
    decreases segments.len(),
{
    if segments.len() <= 1 {
        segments[0]
    } else {
        appended(
            appended(joined_segments(segments.drop_last(), cs), path_separator(cs)),
            segments.last(),
        )
    }
}

/// The enum type of a variant path: its leading `::` where it has one, then
/// its segments but the last, joined by `::` at `cs`.
pub open spec fn enum_type_tokens(path: VariantPath, cs: Span) -> TokenStream {
    let body = joined_segments(path.segments@.drop_last(), cs);
    match path.leading_colon {
        Some(colon) => appended(colon, body),
        None => body,
    }
}

/// The message of the error that a repeated output is answered with.
pub open spec fn injectivity_text(key: Seq<char>) -> Seq<char> {
    "inject: `"@ + key + "` is produced by more than one arm; the mapping is not injective"@
}

impl ArmBody {
    /// The output path of a body known to be a path.
    pub fn as_expr_path(&self) -> (p: &OutputPath)
        requires
            self is Path,
        ensures
            *self == ArmBody::Path(*p),
    {
        match self {
            ArmBody::Path(p) => p,
            ArmBody::Other => vstd::pervasive::unreached(),
        }
    }
}

/// Each arm must map an enum variant path to an enum variant path, with no
/// guard: on arms that do, this has nothing to do; `check_enum_to_enum_arms`
/// tells which rule other arms break.
pub fn validate_enum_to_enum_arms(arms: &Vec<ArmShape>)
    requires
        validation(arms@) is None,
{
}

/// Checks that each arm maps an enum variant path to an enum variant path,
/// with no guard: the first arm that breaks a rule gives the error.
pub fn check_enum_to_enum_arms(arms: &Vec<ArmShape>) -> (r: Result<(), MacroError>)
    ensures
        r == (match validation(arms@) {
            None => Ok(()),
            Some(e) => Err(e),
        }),
{
    if arms.len() == 0 {
        return Err(MacroError::EmptyMatch);
    }
    let n: usize = arms.len();
    let mut i: usize = 0;
    assert(arms@.skip(0) =~= arms@);
    while i < n
        invariant
            n == arms@.len(),
            0 < n,
            0 <= i <= n,
            forall|j: int| 0 <= j < i ==> #[trigger] arm_error(arms@[j]) is None,
            first_arm_error(arms@) == first_arm_error(arms@.skip(i as int)),
        decreases n - i,
    {
        let arm = &arms[i];
        assert(arms@.skip(i as int)[0] == arms@[i as int]);
        if arm.has_guard {
            return Err(MacroError::GuardedArm);
        }
        if !arm.pattern_is_path {
            return Err(MacroError::PatternNotPath);
        }
        match &arm.body {
            ArmBody::Path(_) => {},
            ArmBody::Other => {
                return Err(MacroError::BodyNotPath);
            },
        }
        assert(arms@.skip(i as int).drop_first() =~= arms@.skip(i + 1));
        i += 1;
    }
    proof {
        assert(arms@.skip(n as int).len() == 0);
    }
    Ok(())
}

/// The index of the first arm whose output an earlier arm already produces,
/// or `None` when the mapping is injective.
pub fn first_repeated_output(arms: &Vec<ArmShape>) -> (r: Option<usize>)
    requires
        bodies_are_paths(arms@),
    ensures
        r is None <==> keys_distinct(arms@),
        r matches Some(j) ==> {
            &&& j < arms@.len()
            &&& repeats_earlier(arms@, j as int)
            &&& forall|k: int| 0 <= k < j ==> !#[trigger] repeats_earlier(arms@, k)
        },
{
    let n: usize = arms.len();
    let mut seen: Vec<String> = Vec::new();
    let mut i: usize = 0;
    while i < n
        invariant
            n == arms@.len(),
            bodies_are_paths(arms@),
            0 <= i <= n,
            seen@.len() == i,
            forall|j: int| 0 <= j < i ==> (#[trigger] seen@[j])@ == output_key(arms@[j]),
            forall|k: int| 0 <= k < i ==> !#[trigger] repeats_earlier(arms@, k),
        decreases n - i,
    {
        assert(arms@[i as int].body is Path);
        let key = &arms[i].body.as_expr_path().text;
        let mut t: usize = 0;
        while t < i
            invariant
                0 <= t <= i,
                i < n,
                n == arms@.len(),
                seen@.len() == i,
                key@ == output_key(arms@[i as int]),
                forall|j: int| 0 <= j < i ==> (#[trigger] seen@[j])@ == output_key(arms@[j]),
                forall|u: int| 0 <= u < t ==> output_key(arms@[u]) != output_key(arms@[i as int]),
                forall|k: int| 0 <= k < i ==> !#[trigger] repeats_earlier(arms@, k),
            decreases i - t,
        {
            if seen[t] == *key {
                assert(output_key(arms@[t as int]) == output_key(arms@[i as int]));
                assert(repeats_earlier(arms@, i as int));
                return Some(i);
            }
            t += 1;
        }
        seen.push(key.clone());
        i += 1;
    }
    assert forall|a: int, b: int| 0 <= a < b < arms@.len() implies #[trigger] output_key(arms@[a])
        != #[trigger] output_key(arms@[b]) by {
        assert(!repeats_earlier(arms@, b));
    }
    None
}

/// The message of the error for an output produced by more than one arm.
pub fn injectivity_message(key: &str) -> (m: String)
    ensures
        m@ == injectivity_text(key@),
{
    let mut m = String::from_str("inject: `");
    m.append(key);
    m.append("` is produced by more than one arm; the mapping is not injective");
    m
}

/// Whether `v` holds a string with the text of `s`.
fn contains_text(v: &Vec<String>, s: &String) -> (b: bool)
    ensures
        b == texts(v@).contains(s@),
{
    let mut t: usize = 0;
    while t < v.len()
        invariant
            0 <= t <= v@.len(),
            forall|u: int| 0 <= u < t ==> (#[trigger] v@[u])@ != s@,
        decreases v@.len() - t,
    {
        if v[t] == *s {
            assert(texts(v@)[t as int] == s@);
            return true;
        }
        t += 1;
    }
    assert(!texts(v@).contains(s@)) by {
        if texts(v@).contains(s@) {
            let u: int = choose|u: int| 0 <= u < texts(v@).len() && texts(v@)[u] == s@;
            assert(v@[u]@ == s@);
        }
    }
    false
}

/// The arm `OUTPUT => (),` of the companion `match`, its punctuation at `cs`.
fn check_arm_token(output: &OutputPath, cs: Span) -> (r: TokenStream)
    ensures
        r == check_arm_tokens(output.tokens, cs),
{
    let mut t = clone_tokens(&output.tokens);
    append_tokens(&mut t, punct_token('=', true, cs));
    append_tokens(&mut t, punct_token('>', false, cs));
    append_tokens(&mut t, empty_group_token(GroupDelimiter::Parenthesis, cs));
    append_tokens(&mut t, punct_token(',', false, cs));
    t
}

/// The arms of the companion `match`: `OUTPUT => (),` for each distinct
/// output, from the arm that produces it first, in that order.
pub fn surjectivity_check_arms(arms: &Vec<ArmShape>, cs: Span) -> (r: Vec<TokenStream>)
    requires
        bodies_are_paths(arms@),
    ensures
        r@ == check_arms(arms@, cs),
{
    let n: usize = arms.len();
    let mut seen: Vec<String> = Vec::new();
    let mut out: Vec<TokenStream> = Vec::new();
    let mut i: usize = 0;
    assert(arms@.take(0) =~= Seq::<ArmShape>::empty());
    while i < n
        invariant
            n == arms@.len(),
            bodies_are_paths(arms@),
            0 <= i <= n,
            texts(seen@) == distinct_outputs(arms@.take(i as int)),
            out@ == check_arms(arms@.take(i as int), cs),
        decreases n - i,
    {
        assert(arms@[i as int].body is Path);
        let output = arms[i].body.as_expr_path();
        let key = &output.text;
        let ghost prefix = arms@.take(i as int);
        let ghost next = arms@.take(i + 1);
        assert(next.drop_last() =~= prefix);
        assert(next.last() == arms@[i as int]);
        if !contains_text(&seen, key) {
            let ghost seen_before = seen@;
            let ghost out_before = out@;
            seen.push(key.clone());
            out.push(check_arm_token(output, cs));
            assert(texts(seen@) =~= texts(seen_before).push(key@));
            assert(first_occurrences(next) == first_occurrences(prefix).push(arms@[i as int]));
            assert(out@ =~= check_arms(next, cs));
        } else {
            assert(first_occurrences(next) == first_occurrences(prefix));
        }
        i += 1;
    }
    assert(arms@.take(n as int) =~= arms@);
    out
}

/// The outputs of the first-occurrence arms.
pub open spec fn texts_of_firsts(arms: Seq<ArmShape>) -> Seq<Seq<char>> {
    first_occurrences(arms).map_values(|a: ArmShape| output_key(a))
}

/// The first-occurrence arms produce the distinct outputs, in order.
pub proof fn lemma_first_occurrences(arms: Seq<ArmShape>)
    ensures
        texts_of_firsts(arms) == distinct_outputs(arms),
    decreases arms.len(),
{
    if arms.len() > 0 {
        let p = arms.drop_last();
        lemma_first_occurrences(p);
        if !distinct_outputs(p).contains(output_key(arms.last())) {
            assert(texts_of_firsts(arms) =~= texts_of_firsts(p).push(output_key(arms.last())));
        }
    }
}

/// A mapping with an arm has a first-occurrence arm.
pub proof fn lemma_first_occurrences_nonempty(arms: Seq<ArmShape>)
    requires
        arms.len() > 0,
    ensures
        first_occurrences(arms).len() > 0,
{
    let p = arms.drop_last();
    if distinct_outputs(p).contains(output_key(arms.last())) {
        lemma_first_occurrences(p);
        assert(texts_of_firsts(p).len() > 0);
    }
}

/// The enum type of a variant path: the path without its last segment, e.g.
/// `Letters` for `Letters::A`; its `::` separators at `cs`. A path of fewer
/// than two segments names no variant of an enum: callers check that first.
pub fn enum_type_of_path(path: &VariantPath, cs: Span) -> (r: TokenStream)
    requires
        path.segments@.len() >= 2,
    ensures
        r == enum_type_tokens(*path, cs),
{
    let n: usize = path.segments.len();
    let ghost segs = path.segments@;
    let mut t = clone_tokens(&path.segments[0]);
    let mut k: usize = 1;
    assert(segs.take(1).drop_last() =~= Seq::<TokenStream>::empty());
    while k < n - 1
        invariant
            n == path.segments@.len(),
            2 <= n,
            1 <= k <= n - 1,
            segs == path.segments@,
            t == joined_segments(segs.take(k as int), cs),
        decreases n - 1 - k,
    {
        let mut separator = punct_token(':', true, cs);
        append_tokens(&mut separator, punct_token(':', false, cs));
        append_tokens(&mut t, separator);
        append_tokens(&mut t, clone_tokens(&path.segments[k]));
        assert(segs.take(k + 1).drop_last() =~= segs.take(k as int));
        assert(segs.take(k + 1).last() == segs[k as int]);
        k += 1;
    }
    assert(segs.take((n - 1) as int) =~= segs.drop_last());
    match &path.leading_colon {
        Some(colon) => {
            let mut r = clone_tokens(colon);
            append_tokens(&mut r, t);
            r
        },
        None => t,
    }
}

/// The enum type of an arm's output expression.
pub fn enum_type_of_expr(expr: &OutputPath, cs: Span) -> (r: TokenStream)
    requires
        expr.path.segments@.len() >= 2,
    ensures
        r == enum_type_tokens(expr.path, cs),
{
    enum_type_of_path(&expr.path, cs)
}

} // verus!

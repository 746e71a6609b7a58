//! Properties of the checks that hold for every mapping.
use crate::implementation::{
    companion_tokens, expansion_of, first_repeat, is_first_repeat, item_tokens, AnnotatedItem,
    Property,
};
use crate::model::{
    arm_error, arms_valid, first_arm_error, lemma_first_arm_error_none, output_key, validation, ArmShape,
    MacroError,
};
use crate::syntax::{appended, compile_error_tokens};
use crate::validation::{injectivity_text, joined_segments, joined_tokens, path_separator, repeats_earlier};
use crate::{attribute_answer, attribute_applies, attribute_expansion};
use proc_macro2::{Span, TokenStream};
use crate::syntax::visit_step;
use crate::validation::{
    distinct_outputs, first_occurrences, keys_distinct, lemma_first_occurrences, texts_of_firsts,
};
use vstd::prelude::*;

verus! {

/// The arms of the companion `match` cover exactly the outputs that the
/// mapping produces, each once: no output is listed twice, an output is
/// listed exactly when some arm produces it, and there are never more of
/// them than arms.
pub proof fn law_companion_covers_each_output_once(arms: Seq<ArmShape>)
    ensures
        distinct_outputs(arms).no_duplicates(),
        forall|k: Seq<char>|
            #[trigger] distinct_outputs(arms).contains(k) <==> exists|i: int|
                0 <= i < arms.len() && #[trigger] output_key(arms[i]) == k,
        distinct_outputs(arms).len() <= arms.len(),
        texts_of_firsts(arms) == distinct_outputs(arms),
    decreases arms.len(),
{
    lemma_first_occurrences(arms);
    if arms.len() > 0 {
        let prev = arms.drop_last();
        law_companion_covers_each_output_once(prev);
        let k = output_key(arms.last());
        let d = distinct_outputs(arms);
        let p = distinct_outputs(prev);
        assert(output_key(arms[arms.len() - 1]) == k);
        assert forall|i: int| 0 <= i < prev.len() implies output_key(#[trigger] prev[i]) == output_key(arms[i]) by {}
        if p.contains(k) {
            assert(d == p);
        } else {
            assert(d == p.push(k));
            assert(d[p.len() as int] == k);
            assert forall|x: Seq<char>| #[trigger] d.contains(x) implies p.contains(x) || x == k by {
                let u: int = choose|u: int| 0 <= u < d.len() && d[u] == x;
                if u < p.len() {
                    assert(p[u] == x);
                }
            }
            assert forall|x: Seq<char>| p.contains(x) implies #[trigger] d.contains(x) by {
                let u: int = choose|u: int| 0 <= u < p.len() && p[u] == x;
                assert(d[u] == x);
            }
        }
        assert forall|x: Seq<char>| #[trigger]
            d.contains(x) <==> exists|i: int|
                0 <= i < arms.len() && #[trigger] output_key(arms[i]) == x by {
            if d.contains(x) {
                if p.contains(x) {
                    let i: int = choose|i: int| 0 <= i < prev.len() && #[trigger] output_key(prev[i]) == x;
                    assert(output_key(arms[i]) == x);
                } else {
                    assert(x == k);
                }
            }
            if exists|i: int| 0 <= i < arms.len() && #[trigger] output_key(arms[i]) == x {
                let i: int = choose|i: int| 0 <= i < arms.len() && #[trigger] output_key(arms[i]) == x;
                if i < arms.len() - 1 {
                    assert(output_key(prev[i]) == x);
                    assert(p.contains(x));
                } else {
                    assert(x == k);
                }
            }
        }
    }
}

/// The mapping is injective exactly when the companion `match` has one arm
/// per arm of the mapping; then its arms are the outputs in arm order.
pub proof fn law_injective_iff_one_companion_arm_per_arm(arms: Seq<ArmShape>)
    ensures
        keys_distinct(arms) <==> distinct_outputs(arms).len() == arms.len(),
        keys_distinct(arms) ==> distinct_outputs(arms) == arms.map_values(
            |a: ArmShape| output_key(a),
        ),
        keys_distinct(arms) <==> first_occurrences(arms).len() == arms.len(),
    decreases arms.len(),
{
    lemma_first_occurrences(arms);
    law_companion_covers_each_output_once(arms);
    if arms.len() > 0 {
        let prev = arms.drop_last();
        let n: nat = arms.len();
        let k = output_key(arms.last());
        law_injective_iff_one_companion_arm_per_arm(prev);
        law_companion_covers_each_output_once(prev);
        if keys_distinct(arms) {
            assert(keys_distinct(prev)) by {
                assert forall|i: int, j: int| 0 <= i < j < prev.len() implies #[trigger] output_key(
                    prev[i],
                ) != #[trigger] output_key(prev[j]) by {
                    assert(output_key(arms[i]) != output_key(arms[j]));
                }
            }
            if distinct_outputs(prev).contains(k) {
                let i: int = choose|i: int| 0 <= i < prev.len() && #[trigger] output_key(prev[i]) == k;
                assert(output_key(arms[i]) != output_key(arms[n - 1]));
            }
            assert(distinct_outputs(arms) =~= arms.map_values(|a: ArmShape| output_key(a)));
        }
        if distinct_outputs(arms).len() == n {
            assert(!distinct_outputs(prev).contains(k));
            assert(distinct_outputs(prev).len() == n - 1);
            assert forall|i: int, j: int| 0 <= i < j < n implies #[trigger] output_key(arms[i])
                != #[trigger] output_key(arms[j]) by {
                if j < n - 1 {
                    assert(output_key(prev[i]) != output_key(prev[j]));
                } else {
                    assert(output_key(prev[i]) == output_key(arms[i]));
                }
            }
        }
    }
}

/// The injectivity answer does not depend on the order of the arms: arms
/// rearranged by a permutation `perm`, whose inverse is `back` (arm `i` of
/// `moved` is arm `perm(i)` of `arms`), are injective exactly when the
/// original arms are.
pub proof fn law_injectivity_ignores_arm_order(
    arms: Seq<ArmShape>,
    moved: Seq<ArmShape>,
    perm: spec_fn(int) -> int,
    back: spec_fn(int) -> int,
)
    requires
        moved.len() == arms.len(),
        forall|i: int| 0 <= i < arms.len() ==> 0 <= #[trigger] perm(i) < arms.len(),
        forall|i: int, j: int|
            0 <= i < arms.len() && 0 <= j < arms.len() && #[trigger] perm(i) == #[trigger] perm(j)
                ==> i == j,
        forall|k: int| 0 <= k < arms.len() ==> 0 <= #[trigger] back(k) < arms.len() && perm(back(k)) == k,
        forall|i: int| 0 <= i < arms.len() ==> #[trigger] moved[i] == arms[perm(i)],
    ensures
        keys_distinct(moved) <==> keys_distinct(arms),
{
    if keys_distinct(arms) {
        assert forall|i: int, j: int| 0 <= i < j < moved.len() implies #[trigger] output_key(moved[i])
            != #[trigger] output_key(moved[j]) by {
            assert(moved[i] == arms[perm(i)]);
            assert(moved[j] == arms[perm(j)]);
            assert(perm(i) != perm(j));
            if perm(i) < perm(j) {
                assert(output_key(arms[perm(i)]) != output_key(arms[perm(j)]));
            } else {
                assert(output_key(arms[perm(j)]) != output_key(arms[perm(i)]));
            }
        }
    }
    if keys_distinct(moved) {
        assert forall|a: int, b: int| 0 <= a < b < arms.len() implies #[trigger] output_key(arms[a])
            != #[trigger] output_key(arms[b]) by {
            let i = back(a);
            let j = back(b);
            assert(moved[i] == arms[a]);
            assert(moved[j] == arms[b]);
            if i < j {
                assert(output_key(moved[i]) != output_key(moved[j]));
            } else {
                assert(i != j);
                assert(output_key(moved[j]) != output_key(moved[i]));
            }
        }
    }
}

/// Arms whose outputs some arm already produces add nothing to the companion
/// `match`: its arms stay as they were.
pub proof fn law_repeated_outputs_leave_companion_unchanged(
    arms: Seq<ArmShape>,
    more: Seq<ArmShape>,
)
    requires
        forall|i: int|
            0 <= i < more.len() ==> distinct_outputs(arms).contains(#[trigger] output_key(more[i])),
    ensures
        distinct_outputs(arms + more) == distinct_outputs(arms),
        first_occurrences(arms + more) == first_occurrences(arms),
    decreases more.len(),
{
    if more.len() > 0 {
        let fewer = more.drop_last();
        assert forall|i: int| 0 <= i < fewer.len() implies distinct_outputs(arms).contains(
            #[trigger] output_key(fewer[i]),
        ) by {
            assert(fewer[i] == more[i]);
        }
        law_repeated_outputs_leave_companion_unchanged(arms, fewer);
        assert((arms + more).drop_last() =~= arms + fewer);
        assert((arms + more).last() == more[more.len() - 1]);
    } else {
        assert(arms + more =~= arms);
    }
}

/// What a finder holds after meeting `nodes` in order, starting from `found`.
pub open spec fn after_visits<'ast>(
    found: Option<&'ast syn::ExprMatch>,
    nodes: Seq<&'ast syn::ExprMatch>,
) -> Option<&'ast syn::ExprMatch>
    decreases nodes.len(),
{
    if nodes.len() == 0 {
        found
    } else {
        after_visits(visit_step(found, nodes[0]), nodes.drop_first())
    }
}

/// However many `match` expressions a finder meets, it keeps the first one:
/// the one it held already, else the first it meets.
pub proof fn law_finder_keeps_first_match<'ast>(
    found: Option<&'ast syn::ExprMatch>,
    nodes: Seq<&'ast syn::ExprMatch>,
)
    ensures
        after_visits(found, nodes) == (if found is None && nodes.len() > 0 {
            Some(nodes[0])
        } else {
            found
        }),
    decreases nodes.len(),
{
    if nodes.len() > 0 {
        law_finder_keeps_first_match(visit_step(found, nodes[0]), nodes.drop_first());
    }
}

/// Where some output repeats, a repetition comes first.
pub proof fn lemma_first_repeat_exists(arms: Seq<ArmShape>)
    requires
        !keys_distinct(arms),
    ensures
        is_first_repeat(arms, first_repeat(arms)),
    decreases arms.len(),
{
    let n = arms.len();
    let prev = arms.drop_last();
    if !keys_distinct(prev) {
        lemma_first_repeat_exists(prev);
        let j = first_repeat(prev);
        let i: int = choose|i: int| 0 <= i < j && #[trigger] output_key(prev[i]) == output_key(prev[j]);
        assert(output_key(arms[i]) == output_key(arms[j]));
        assert forall|k: int| 0 <= k < j implies !#[trigger] repeats_earlier(arms, k) by {
            if repeats_earlier(arms, k) {
                let l: int = choose|l: int| 0 <= l < k && #[trigger] output_key(arms[l]) == output_key(arms[k]);
                assert(output_key(prev[l]) == output_key(prev[k]));
                assert(repeats_earlier(prev, k));
            }
        }
        assert(is_first_repeat(arms, j));
    } else {
        let (a, b): (int, int) = choose|a: int, b: int|
            0 <= a < b < n && #[trigger] output_key(arms[a]) == #[trigger] output_key(arms[b]);
        if b < n - 1 {
            assert(output_key(prev[a]) == output_key(prev[b]));
        }
        assert(repeats_earlier(arms, n - 1));
        assert forall|k: int| 0 <= k < n - 1 implies !#[trigger] repeats_earlier(arms, k) by {
            if repeats_earlier(arms, k) {
                let l: int = choose|l: int| 0 <= l < k && #[trigger] output_key(arms[l]) == output_key(arms[k]);
                assert(output_key(prev[l]) == output_key(prev[k]));
            }
        }
        assert(is_first_repeat(arms, n - 1));
    }
}

/// `#[injective]` and `#[bijective]` reject a mapping exactly when two arms,
/// wherever they stand, produce the same output: the expansion is then the
/// compile error at the first arm whose output an earlier arm produces,
/// naming that output. Only where all outputs differ does `#[injective]`
/// keep the item and `#[bijective]` add the companion function.
pub proof fn law_injectivity_rejects_any_repeat(
    property: Property,
    item: AnnotatedItem,
    arms: Seq<ArmShape>,
    r: TokenStream,
)
    requires
        !(property is Surjective),
        arms_valid(arms),
        expansion_of(property, item, arms, r),
    ensures
        (exists|i: int, j: int|
            0 <= i < j < arms.len() && #[trigger] output_key(arms[i]) == #[trigger] output_key(
                arms[j],
            )) ==> exists|j: int|
            {
                &&& 0 <= j < arms.len()
                &&& exists|i: int| 0 <= i < j && #[trigger] output_key(arms[i]) == output_key(arms[j])
                &&& forall|k: int, l: int|
                    0 <= l < k < j ==> #[trigger] output_key(arms[l]) != #[trigger] output_key(
                        arms[k],
                    )
                &&& r == compile_error_tokens(
                    arms[j].body->Path_0.span,
                    injectivity_text(output_key(arms[j])),
                )
            },
        (forall|i: int, j: int|
            0 <= i < j < arms.len() ==> #[trigger] output_key(arms[i]) != #[trigger] output_key(
                arms[j],
            )) ==> (if property is Injective {
            r == item_tokens(item)
        } else {
            exists|cs: Span|
                r == appended(item_tokens(item), #[trigger] companion_tokens(item, property, arms, cs))
        }),
{
    if !keys_distinct(arms) {
        lemma_first_repeat_exists(arms);
        let j = first_repeat(arms);
        assert forall|k: int, l: int| 0 <= l < k < j implies #[trigger] output_key(arms[l])
            != #[trigger] output_key(arms[k]) by {
            assert(!repeats_earlier(arms, k));
        }
    }
}

/// The companion's `match` lists every one of its arms, in order: joining
/// one more part appends it to the join of the others.
pub proof fn law_joined_tokens_appends_each_part(parts: Seq<TokenStream>, part: TokenStream)
    requires
        parts.len() >= 1,
    ensures
        joined_tokens(seq![part]) == part,
        joined_tokens(parts.push(part)) == appended(joined_tokens(parts), part),
{
    assert(parts.push(part).drop_last() =~= parts);
}

/// The enum type keeps every segment but the last: joining one more segment
/// appends `::` and that segment to the join of the others.
pub proof fn law_joined_segments_appends_each_segment(
    segments: Seq<TokenStream>,
    segment: TokenStream,
    cs: Span,
)
    requires
        segments.len() >= 1,
    ensures
        joined_segments(seq![segment], cs) == segment,
        joined_segments(segments.push(segment), cs) == appended(
            appended(joined_segments(segments, cs), path_separator(cs)),
            segment,
        ),
{
    assert(segments.push(segment).drop_last() =~= segments);
}

/// An attribute's expansion of an input it can expand is what it answers for
/// that input, whatever its arguments: the entry points and their checked
/// forms agree.
pub proof fn law_attribute_expansion_is_its_answer(
    property: Property,
    attr: TokenStream,
    input: TokenStream,
    r: TokenStream,
)
    requires
        attribute_applies(property, input),
        attribute_expansion(property, input, r),
    ensures
        attribute_answer(property, attr, input, Ok(r)),
{
}

/// The arm breaks none of the rules, stated on its fields.
pub open spec fn arm_fine(a: ArmShape) -> bool {
    !a.has_guard && a.pattern_is_path && a.body is Path
}

/// The first arm that breaks a rule decides the error.
proof fn lemma_first_fault_decides(arms: Seq<ArmShape>, i: int)
    requires
        0 <= i < arms.len(),
        arm_error(arms[i]) is Some,
        forall|j: int| 0 <= j < i ==> #[trigger] arm_error(arms[j]) is None,
    ensures
        first_arm_error(arms) == arm_error(arms[i]),
    decreases i,
{
    if i > 0 {
        let rest = arms.drop_first();
        assert(arm_error(arms[0]) is None);
        assert forall|j: int| 0 <= j < i - 1 implies #[trigger] arm_error(rest[j]) is None by {
            assert(rest[j] == arms[j + 1]);
        }
        assert(rest[i - 1] == arms[i]);
        lemma_first_fault_decides(rest, i - 1);
    }
}

/// Where an arm breaks a rule, one does first.
proof fn lemma_first_fault_exists(arms: Seq<ArmShape>)
    requires
        first_arm_error(arms) is Some,
    ensures
        exists|i: int|
            {
                &&& 0 <= i < arms.len()
                &&& #[trigger] arm_error(arms[i]) == first_arm_error(arms)
                &&& forall|j: int| 0 <= j < i ==> #[trigger] arm_error(arms[j]) is None
            },
    decreases arms.len(),
{
    if arm_error(arms[0]) is Some {
        assert(arm_error(arms[0]) == first_arm_error(arms));
    } else {
        let rest = arms.drop_first();
        lemma_first_fault_exists(rest);
        let i: int = choose|i: int|
            {
                &&& 0 <= i < rest.len()
                &&& #[trigger] arm_error(rest[i]) == first_arm_error(rest)
                &&& forall|j: int| 0 <= j < i ==> #[trigger] arm_error(rest[j]) is None
            };
        assert(arms[i + 1] == rest[i]);
        assert forall|j: int| 0 <= j < i + 1 implies #[trigger] arm_error(arms[j]) is None by {
            if j > 0 {
                assert(arms[j] == rest[j - 1]);
            }
        }
        assert(arm_error(arms[i + 1]) == first_arm_error(arms));
    }
}

/// A mapping is accepted exactly when it has an arm and no arm has a guard,
/// a pattern other than a path, or a body other than a path; otherwise the
/// error names what the first such arm breaks, checking its guard first,
/// then its pattern, then its body.
pub proof fn law_validation_checks_every_arm(arms: Seq<ArmShape>)
    ensures
        validation(arms) is None <==> {
            &&& arms.len() > 0
            &&& forall|i: int| 0 <= i < arms.len() ==> #[trigger] arm_fine(arms[i])
        },
        validation(arms) == Some(MacroError::EmptyMatch) <==> arms.len() == 0,
        validation(arms) == Some(MacroError::GuardedArm) <==> exists|i: int|
            {
                &&& 0 <= i < arms.len()
                &&& (#[trigger] arms[i]).has_guard
                &&& forall|j: int| 0 <= j < i ==> #[trigger] arm_fine(arms[j])
            },
        validation(arms) == Some(MacroError::PatternNotPath) <==> exists|i: int|
            {
                &&& 0 <= i < arms.len()
                &&& !(#[trigger] arms[i]).has_guard && !arms[i].pattern_is_path
                &&& forall|j: int| 0 <= j < i ==> #[trigger] arm_fine(arms[j])
            },
        validation(arms) == Some(MacroError::BodyNotPath) <==> exists|i: int|
            {
                &&& 0 <= i < arms.len()
                &&& !(#[trigger] arms[i]).has_guard && arms[i].pattern_is_path
                    && arms[i].body is Other
                &&& forall|j: int| 0 <= j < i ==> #[trigger] arm_fine(arms[j])
            },
{
    lemma_first_arm_error_none(arms);
    assert forall|a: ArmShape| #[trigger] arm_fine(a) <==> arm_error(a) is None by {}
    assert((forall|i: int| 0 <= i < arms.len() ==> #[trigger] arm_fine(arms[i])) <==> (forall|i: int|
        0 <= i < arms.len() ==> #[trigger] arm_error(arms[i]) is None)) by {
        if forall|i: int| 0 <= i < arms.len() ==> #[trigger] arm_fine(arms[i]) {
            assert forall|i: int| 0 <= i < arms.len() implies #[trigger] arm_error(arms[i]) is None by {
                assert(arm_fine(arms[i]));
            }
        }
        if forall|i: int| 0 <= i < arms.len() ==> #[trigger] arm_error(arms[i]) is None {
            assert forall|i: int| 0 <= i < arms.len() implies #[trigger] arm_fine(arms[i]) by {
                assert(arm_error(arms[i]) is None);
            }
        }
    }
    if arms.len() > 0 {
        if first_arm_error(arms) is Some {
            lemma_first_fault_exists(arms);
        }
        assert forall|i: int|
            0 <= i < arms.len() && arm_error(#[trigger] arms[i]) is Some && (forall|j: int|
                0 <= j < i ==> #[trigger] arm_fine(arms[j])) implies first_arm_error(arms)
            == arm_error(arms[i]) by {
            assert forall|j: int| 0 <= j < i implies #[trigger] arm_error(arms[j]) is None by {
                assert(arm_fine(arms[j]));
            }
            lemma_first_fault_decides(arms, i);
        }
        if first_arm_error(arms) is Some {
            let i: int = choose|i: int|
                {
                    &&& 0 <= i < arms.len()
                    &&& #[trigger] arm_error(arms[i]) == first_arm_error(arms)
                    &&& forall|j: int| 0 <= j < i ==> #[trigger] arm_error(arms[j]) is None
                };
            assert forall|j: int| 0 <= j < i implies #[trigger] arm_fine(arms[j]) by {
                assert(arm_error(arms[j]) is None);
            }
        }
    }
}

/// On any input holding a valid mapping where two arms produce the same
/// output, `#[injective]`, `#[one_to_one]` and `#[bijective]` answer, and
/// expand to, the compile error at the first arm whose output an earlier arm
/// produces.
pub proof fn law_attributes_reject_any_repeat(
    property: Property,
    attr: TokenStream,
    input: TokenStream,
    r: Result<TokenStream, MacroError>,
    t: TokenStream,
)
    requires
        !(property is Surjective),
        crate::parsed_item(input) matches Some(item) && (crate::implementation::item_arms(item) matches Some(
            arms,
        ) && arms_valid(arms) && !keys_distinct(arms)),
    ensures
        ({
            let arms = crate::implementation::item_arms(crate::parsed_item(input)->0)->0;
            let j = first_repeat(arms);
            let error = compile_error_tokens(
                arms[j].body->Path_0.span,
                injectivity_text(output_key(arms[j])),
            );
            &&& attribute_answer(property, attr, input, r) ==> r == Ok::<TokenStream, MacroError>(error)
            &&& attribute_expansion(property, input, t) ==> t == error
            &&& attribute_applies(property, input)
        }),
{
    let item = crate::parsed_item(input)->0;
    let arms = crate::implementation::item_arms(item)->0;
    lemma_first_arm_error_none(arms);
    lemma_first_repeat_exists(arms);
}

/// The arms of the companion `match` are, in order, `OUTPUT => (),` for one
/// arm per distinct output: the first arm that produces it.
pub proof fn law_companion_arms_are_first_occurrences(arms: Seq<ArmShape>, cs: Span)
    ensures
        crate::validation::check_arms(arms, cs).len() == distinct_outputs(arms).len(),
        forall|k: int|
            0 <= k < distinct_outputs(arms).len() ==> exists|i: int|
                {
                    &&& 0 <= i < arms.len()
                    &&& #[trigger] first_occurrences(arms)[k] == arms[i]
                    &&& output_key(arms[i]) == distinct_outputs(arms)[k]
                    &&& forall|j: int| 0 <= j < i ==> output_key(arms[j]) != output_key(arms[i])
                    &&& crate::validation::check_arms(arms, cs)[k]
                        == crate::validation::check_arm_tokens(
                        crate::validation::output_tokens(arms[i]),
                        cs,
                    )
                },
    decreases arms.len(),
{
    lemma_first_occurrences(arms);
    assert(texts_of_firsts(arms).len() == first_occurrences(arms).len());
    if arms.len() > 0 {
        let n = arms.len();
        let prev = arms.drop_last();
        law_companion_arms_are_first_occurrences(prev, cs);
        law_companion_covers_each_output_once(prev);
        lemma_first_occurrences(prev);
        let key = output_key(arms.last());
        assert forall|k: int| 0 <= k < distinct_outputs(arms).len() implies exists|i: int|
            {
                &&& 0 <= i < arms.len()
                &&& #[trigger] first_occurrences(arms)[k] == arms[i]
                &&& output_key(arms[i]) == distinct_outputs(arms)[k]
                &&& forall|j: int| 0 <= j < i ==> output_key(arms[j]) != output_key(arms[i])
                &&& crate::validation::check_arms(arms, cs)[k]
                    == crate::validation::check_arm_tokens(
                    crate::validation::output_tokens(arms[i]),
                    cs,
                )
            } by {
            assert(texts_of_firsts(arms)[k] == distinct_outputs(arms)[k]);
            if k < distinct_outputs(prev).len() {
                let i: int = choose|i: int|
                    {
                        &&& 0 <= i < prev.len()
                        &&& #[trigger] first_occurrences(prev)[k] == prev[i]
                        &&& output_key(prev[i]) == distinct_outputs(prev)[k]
                        &&& forall|j: int| 0 <= j < i ==> output_key(prev[j]) != output_key(prev[i])
                        &&& crate::validation::check_arms(prev, cs)[k]
                            == crate::validation::check_arm_tokens(
                            crate::validation::output_tokens(prev[i]),
                            cs,
                        )
                    };
                assert(prev[i] == arms[i]);
                assert forall|j: int| 0 <= j < i implies output_key(arms[j]) != output_key(arms[i]) by {
                    assert(prev[j] == arms[j]);
                }
                assert(first_occurrences(arms)[k] == first_occurrences(prev)[k]);
            } else {
                assert(!distinct_outputs(prev).contains(key));
                assert(first_occurrences(arms) == first_occurrences(prev).push(arms.last()));
                assert(k == first_occurrences(prev).len());
                assert(first_occurrences(arms)[k] == arms[n - 1]);
                assert forall|j: int| 0 <= j < n - 1 implies #[trigger] output_key(arms[j])
                    != output_key(arms[n - 1]) by {
                    assert(prev[j] == arms[j]);
                    if output_key(arms[j]) == key {
                        assert(output_key(prev[j]) == key);
                    }
                }
            }
        }
    }
}

} // verus!

//! The plain-value model of an enum-to-enum `match`: what the checks read of
//! each arm, and the errors that a malformed mapping is answered with.
use proc_macro2::{Span, TokenStream};
use vstd::prelude::*;

verus! {

/// A path such as `Enum::Variant`, as written in the source.
#[derive(Debug)]
pub struct VariantPath {
    /// The path rendered as tokens (e.g. `Axis :: Vertical`).
    pub text: String,
    /// The leading `::` of the path, where it has one, as tokens.
    pub leading_colon: Option<TokenStream>,
    /// Each segment as tokens, in order (e.g. `Axis`, `Vertical`).
    pub segments: Vec<TokenStream>,
}

/// The body of an arm that is a plain path expression.
#[derive(Debug)]
pub struct OutputPath {
    /// The whole body expression rendered as tokens. Two arms produce the
    /// same output exactly when these texts are equal.
    pub text: String,
    /// The whole body expression as tokens.
    pub tokens: TokenStream,
    /// The path inside the expression.
    pub path: VariantPath,
    /// Where the expression stands in the source, for diagnostics.
    pub span: Span,
}

/// What an arm's body is.
#[derive(Debug)]
pub enum ArmBody {
    /// A plain path expression, such as `Axis::Vertical`.
    Path(OutputPath),
    /// Any other expression (a call, a literal, a block, ...).
    Other,
}

/// What the checks read of one arm of the `match`.
#[derive(Debug)]
pub struct ArmShape {
    /// The arm has an `if` guard.
    pub has_guard: bool,
    /// The arm's pattern is a plain path such as `Enum::Variant`.
    pub pattern_is_path: bool,
    /// The arm's body.
    pub body: ArmBody,
}

/// Why a function cannot be checked.
#[derive(Debug)]
pub enum MacroError {
    /// The annotated item is neither a function nor a `let` binding; carries
    /// the parser's message for a function.
    NotAFunction(String),
    /// The function holds no `match` expression; carries the attribute text.
    NoMatch(String),
    /// The `match` has no arm.
    EmptyMatch,
    /// An arm has a guard.
    GuardedArm,
    /// An arm's pattern is not a plain path.
    PatternNotPath,
    /// An arm's body is not a plain path.
    BodyNotPath,
    /// The output path has fewer than two segments; carries the path's text.
    ShortPath(String),
}

/// The text of an arm's output (empty where the body is not a path).
pub open spec fn output_key(arm: ArmShape) -> Seq<char> {
    match arm.body {
        ArmBody::Path(p) => p.text@,
        ArmBody::Other => Seq::empty(),
    }
}

/// The path of an arm's output.
pub open spec fn output_path(arm: ArmShape) -> VariantPath
    recommends
        arm.body is Path,
{
    arm.body->Path_0.path
}

/// The texts of a vector of strings.
pub open spec fn texts(v: Seq<String>) -> Seq<Seq<char>> {
    v.map_values(|s: String| s@)
}

/// The first rule that an arm breaks, checked in the order guard, pattern, body.
pub open spec fn arm_error(arm: ArmShape) -> Option<MacroError> {
    if arm.has_guard {
        Some(MacroError::GuardedArm)
    } else if !arm.pattern_is_path {
        Some(MacroError::PatternNotPath)
    } else if arm.body is Other {
        Some(MacroError::BodyNotPath)
    } else {
        None
    }
}

/// The error of the first arm, in order, that breaks a rule.
pub open spec fn first_arm_error(arms: Seq<ArmShape>) -> Option<MacroError>
    decreases arms.len(),
{
    if arms.len() == 0 {
        None
    } else if arm_error(arms[0]) is Some {
        arm_error(arms[0])
    } else {
        first_arm_error(arms.drop_first())
    }
}

/// What validating the arms of a `match` answers: `None` when they form an
/// enum-to-enum mapping, else the error of the first rule broken.
pub open spec fn validation(arms: Seq<ArmShape>) -> Option<MacroError> {
    if arms.len() == 0 {
        Some(MacroError::EmptyMatch)
    } else {
        first_arm_error(arms)
    }
}

/// The arms form an enum-to-enum mapping: at least one arm, and every arm maps
/// a plain path to a plain path without a guard.
pub open spec fn arms_valid(arms: Seq<ArmShape>) -> bool {
    &&& arms.len() > 0
    &&& forall|i: int| 0 <= i < arms.len() ==> #[trigger] arm_error(arms[i]) is None
}

/// Every arm's body is a plain path.
pub open spec fn bodies_are_paths(arms: Seq<ArmShape>) -> bool {
    forall|i: int| 0 <= i < arms.len() ==> (#[trigger] arms[i]).body is Path
}

/// An error that the structure of the arms can give.
pub open spec fn is_arm_error(e: MacroError) -> bool {
    ||| e is EmptyMatch
    ||| e is GuardedArm
    ||| e is PatternNotPath
    ||| e is BodyNotPath
}

pub proof fn lemma_first_arm_error_none(arms: Seq<ArmShape>)
    ensures
        first_arm_error(arms) is None <==> forall|i: int|
            0 <= i < arms.len() ==> #[trigger] arm_error(arms[i]) is None,
        first_arm_error(arms) matches Some(e) ==> is_arm_error(e),
    decreases arms.len(),
{
    if arms.len() > 0 {
        lemma_first_arm_error_none(arms.drop_first());
        if arm_error(arms[0]) is None {
            assert forall|i: int| 0 <= i < arms.len() && #[trigger] arm_error(arms[i]) is Some implies
                arm_error(arms.drop_first()[i - 1]) is Some by {}
        }
    }
}

impl MacroError {
    /// The message that a use of the attribute on such a function is answered with.
    pub fn message(&self) -> (m: String)
        ensures
            m@ == error_message(*self),
    {
        match self {
            MacroError::NotAFunction(reason) => {
                let mut m = String::from_str("expected a function or a `let` binding: ");
                m.append(reason.as_str());
                m
            },
            MacroError::NoMatch(attr) => {
                let mut m = attr.clone();
                m.append(" can only be used on functions containing a match expression");
                m
            },
            MacroError::EmptyMatch => String::from_str("surject: match must have at least one arm"),
            MacroError::GuardedArm => String::from_str("surject: match guards are not supported"),
            MacroError::PatternNotPath => String::from_str(
                "surject: every arm pattern must be an enum variant path (e.g. `Enum::Variant`)",
            ),
            MacroError::BodyNotPath => String::from_str(
                "surject: every arm body must be an enum variant path (e.g. `Enum::Variant`)",
            ),
            MacroError::ShortPath(path) => {
                let mut m = String::from_str(
                    "surject: enum path must have at least 2 segments (e.g. `Enum::Variant`), got: `",
                );
                m.append(path.as_str());
                m.append("`");
                m
            },
        }
    }
}

/// The text of each error's message.
pub open spec fn error_message(e: MacroError) -> Seq<char> {
    match e {
        MacroError::NotAFunction(reason) => "expected a function or a `let` binding: "@ + reason@,
        MacroError::NoMatch(attr) => attr@
            + " can only be used on functions containing a match expression"@,
        MacroError::EmptyMatch => "surject: match must have at least one arm"@,
        MacroError::GuardedArm => "surject: match guards are not supported"@,
        MacroError::PatternNotPath =>
            "surject: every arm pattern must be an enum variant path (e.g. `Enum::Variant`)"@,
        MacroError::BodyNotPath =>
            "surject: every arm body must be an enum variant path (e.g. `Enum::Variant`)"@,
        MacroError::ShortPath(path) =>
            "surject: enum path must have at least 2 segments (e.g. `Enum::Variant`), got: `"@
            + path@ + "`"@,
    }
}

} // verus!

use bijective::implementation::{
    expand_binding_checked, expand_function, find_and_validate, injectivity_violation,
    validate_found,
};
use bijective::validation::{
    check_enum_to_enum_arms, enum_type_of_path, first_repeated_output, injectivity_message,
    surjectivity_check_arms, validate_enum_to_enum_arms,
};
use bijective::{
    impl_biject_macro, impl_inject_macro, impl_surject_macro, ArmBody, ArmShape, MacroError,
    MatchFinder, OutputPath, Property, VariantPath,
};
use proc_macro2::{Span, TokenStream};
use syn::visit::Visit;
use syn::ItemFn;

fn tokens(code: &str) -> TokenStream {
    code.parse().expect("test input failed to tokenize")
}

fn variant(text: &str, leading_colon: bool, segments: &[&str]) -> VariantPath {
    VariantPath {
        text: text.to_string(),
        leading_colon: if leading_colon { Some(tokens("::")) } else { None },
        segments: segments.iter().map(|s| tokens(s)).collect(),
    }
}

/// An arm `... => <enum>::<name>`, whose output renders as `<enum> :: <name>`.
fn arm_to(enum_name: &str, name: &str) -> ArmShape {
    let text = format!("{enum_name} :: {name}");
    ArmShape {
        has_guard: false,
        pattern_is_path: true,
        body: ArmBody::Path(OutputPath {
            text: text.clone(),
            tokens: tokens(&text),
            path: variant(&text, false, &[enum_name, name]),
            span: Span::call_site(),
        }),
    }
}

fn item_fn(code: &str) -> ItemFn {
    syn::parse_str(code).expect("test input failed to parse")
}

fn error_message(r: Result<TokenStream, MacroError>) -> String {
    match r {
        Ok(tokens) => panic!("expected an error, got {tokens}"),
        Err(e) => e.message(),
    }
}

fn item_names(out: &TokenStream) -> Vec<String> {
    syn::parse_file(&out.to_string())
        .expect("output should be valid items")
        .items
        .iter()
        .map(|item| match item {
            syn::Item::Fn(f) => f.sig.ident.to_string(),
            _ => panic!("expected only functions"),
        })
        .collect()
}

// -- validation ---------------------------------------------------------------

#[test]
fn empty_match_is_refused() {
    let r = check_enum_to_enum_arms(&vec![]);
    assert!(matches!(r, Err(MacroError::EmptyMatch)));
}

#[test]
fn guard_is_checked_before_pattern() {
    let mut arm = arm_to("Axis", "Vertical");
    arm.has_guard = true;
    arm.pattern_is_path = false;
    arm.body = ArmBody::Other;
    assert!(matches!(check_enum_to_enum_arms(&vec![arm]), Err(MacroError::GuardedArm)));
}

#[test]
fn pattern_is_checked_before_body() {
    let mut arm = arm_to("Axis", "Vertical");
    arm.pattern_is_path = false;
    arm.body = ArmBody::Other;
    assert!(matches!(check_enum_to_enum_arms(&vec![arm]), Err(MacroError::PatternNotPath)));
}

#[test]
fn first_faulty_arm_gives_the_error() {
    let mut second = arm_to("Axis", "Vertical");
    second.body = ArmBody::Other;
    let mut third = arm_to("Axis", "Horizontal");
    third.has_guard = true;
    let arms = vec![arm_to("Axis", "Vertical"), second, third];
    assert!(matches!(check_enum_to_enum_arms(&arms), Err(MacroError::BodyNotPath)));
}

#[test]
fn valid_arms_pass() {
    let arms = vec![arm_to("Axis", "Vertical"), arm_to("Axis", "Horizontal")];
    assert!(check_enum_to_enum_arms(&arms).is_ok());
    validate_enum_to_enum_arms(&arms);
}

#[test]
fn missing_match_names_the_attribute() {
    match validate_found("onto", None) {
        Err(MacroError::NoMatch(attr)) => assert_eq!(attr, "onto"),
        _ => panic!("expected NoMatch"),
    }
    let arms = vec![arm_to("Axis", "Vertical")];
    let r = validate_found("onto", Some(arms));
    assert_eq!(r.unwrap().len(), 1);
}

// -- injectivity --------------------------------------------------------------

#[test]
fn first_repeated_output_is_found() {
    let arms = vec![
        arm_to("Axis", "Vertical"),
        arm_to("Axis", "Horizontal"),
        arm_to("Axis", "Vertical"),
        arm_to("Axis", "Horizontal"),
    ];
    assert_eq!(first_repeated_output(&arms), Some(2));
    let arms = vec![arm_to("Bar", "X"), arm_to("Bar", "X")];
    assert_eq!(first_repeated_output(&arms), Some(1));
}

#[test]
fn distinct_outputs_are_injective() {
    let arms = vec![arm_to("L", "X"), arm_to("L", "Y"), arm_to("L", "Z")];
    assert_eq!(first_repeated_output(&arms), None);
    assert!(injectivity_violation(&arms).is_none());
}

#[test]
fn injectivity_violation_names_the_output() {
    let arms = vec![arm_to("Bar", "Y"), arm_to("Bar", "X"), arm_to("Bar", "X")];
    let (at, message) = injectivity_violation(&arms).unwrap();
    assert_eq!(at, 2);
    assert_eq!(
        message,
        "inject: `Bar :: X` is produced by more than one arm; the mapping is not injective"
    );
}

#[test]
fn injectivity_message_text() {
    assert_eq!(
        injectivity_message("A :: B"),
        "inject: `A :: B` is produced by more than one arm; the mapping is not injective"
    );
}

// -- surjectivity -------------------------------------------------------------

#[test]
fn check_arms_keep_first_occurrence_order() {
    let arms = vec![
        arm_to("Axis", "Vertical"),
        arm_to("Axis", "Horizontal"),
        arm_to("Axis", "Vertical"),
        arm_to("Axis", "Depth"),
        arm_to("Axis", "Horizontal"),
    ];
    let texts: Vec<String> = surjectivity_check_arms(&arms, Span::call_site())
        .iter()
        .map(|t| t.to_string())
        .collect();
    assert_eq!(
        texts,
        vec!["Axis :: Vertical => () ,", "Axis :: Horizontal => () ,", "Axis :: Depth => () ,"]
    );
}

#[test]
fn injective_mapping_has_one_check_arm_per_arm() {
    let arms = vec![arm_to("L", "D"), arm_to("L", "C"), arm_to("L", "B"), arm_to("L", "A")];
    assert_eq!(surjectivity_check_arms(&arms, Span::call_site()).len(), arms.len());
    let arms = vec![arm_to("L", "D"), arm_to("L", "C"), arm_to("L", "D")];
    assert!(surjectivity_check_arms(&arms, Span::call_site()).len() < arms.len());
}

#[test]
fn enum_type_drops_the_variant() {
    let p = variant("Letters :: A", false, &["Letters", "A"]);
    assert_eq!(enum_type_of_path(&p, Span::call_site()).to_string(), "Letters");
    let p = variant(":: krate :: E :: V", true, &["krate", "E", "V"]);
    assert_eq!(enum_type_of_path(&p, Span::call_site()).to_string(), ":: krate :: E");
}

#[test]
fn single_segment_path_is_refused() {
    let func = item_fn("fn f(a: Foo) -> Foo { match a { Foo::A => X } }");
    match expand_function(Property::Surjective, "surject", &func) {
        Err(MacroError::ShortPath(text)) => assert_eq!(text, "X"),
        _ => panic!("expected ShortPath"),
    }
}

// -- expansions ---------------------------------------------------------------

#[test]
fn injective_mapping_is_left_unchanged() {
    let func = item_fn("fn embed(s: Small) -> Large { match s { Small::A => Large::X, Small::B => Large::Y } }");
    let out = impl_inject_macro("inject", &func);
    assert_eq!(out.to_string(), quote::ToTokens::to_token_stream(&func).to_string());
}

#[test]
fn repeated_output_is_rejected_unless_only_surjectivity_is_asked() {
    let func = item_fn(
        "fn f(d: D) -> Axis { match d { D::N => Axis::V, D::S => Axis::V, D::E => Axis::H } }",
    );
    for out in [impl_inject_macro("inject", &func), impl_biject_macro("biject", &func)] {
        let text = out.to_string();
        assert!(text.contains("compile_error"));
        assert!(text.contains(
            "inject: `Axis :: V` is produced by more than one arm; the mapping is not injective"
        ));
    }
    let out = impl_surject_macro("surject", &func).to_string();
    assert!(out.ends_with(
        "# [expect (dead_code)] fn surjectivity_check_f (output : Axis) { match output { Axis :: V => () , Axis :: H => () , } }"
    ));
}

#[test]
fn bijective_companion_has_one_arm_per_arm() {
    let func = item_fn("fn swap(l: L) -> N { match l { L::A => N::One, L::B => N::Two } }");
    let out = impl_biject_macro("biject", &func).to_string();
    assert!(out.ends_with(
        "# [expect (dead_code)] fn bijectivity_check_swap (output : N) { match output { N :: One => () , N :: Two => () , } }"
    ));
}

// -- let bindings -------------------------------------------------------------

fn binding(code: &str) -> syn::Local {
    match syn::parse_str::<syn::Stmt>(code).expect("test input failed to parse") {
        syn::Stmt::Local(local) => local,
        _ => panic!("expected a let statement"),
    }
}

#[test]
fn let_binding_gets_a_companion_in_a_block() {
    let b = binding("let _ = match d { Direction::North => Axis::Vertical, Direction::South => Axis::Horizontal };");
    let out = expand_binding_checked(Property::Surjective, "surject", &b).unwrap().to_string();
    assert_eq!(
        out,
        "let _ = match d { Direction :: North => Axis :: Vertical , Direction :: South => Axis :: Horizontal } ; { # [expect (dead_code)] fn surjectivity_check_binding (output : Axis) { match output { Axis :: Vertical => () , Axis :: Horizontal => () , } } }"
    );
    let block = syn::parse_str::<syn::Block>(&format!("{{ {out} }}")).expect("valid statements");
    assert_eq!(block.stmts.len(), 2);
}

#[test]
fn let_binding_is_checked_like_a_function() {
    let b = binding("let _ = match d { D::N => Axis::V, D::S => Axis::V };");
    let out = expand_binding_checked(Property::Bijective, "biject", &b).unwrap().to_string();
    assert!(out.contains("not injective"));
    let b = binding("let x = 1;");
    match expand_binding_checked(Property::Injective, "inject", &b) {
        Err(MacroError::NoMatch(attr)) => assert_eq!(attr, "inject"),
        _ => panic!("expected NoMatch"),
    }
}

// -- messages -----------------------------------------------------------------

#[test]
fn error_messages() {
    assert_eq!(
        MacroError::NoMatch("surject".to_string()).message(),
        "surject can only be used on functions containing a match expression"
    );
    assert_eq!(MacroError::EmptyMatch.message(), "surject: match must have at least one arm");
    assert_eq!(MacroError::GuardedArm.message(), "surject: match guards are not supported");
    assert_eq!(
        MacroError::PatternNotPath.message(),
        "surject: every arm pattern must be an enum variant path (e.g. `Enum::Variant`)"
    );
    assert_eq!(
        MacroError::BodyNotPath.message(),
        "surject: every arm body must be an enum variant path (e.g. `Enum::Variant`)"
    );
    assert_eq!(
        MacroError::ShortPath("B".to_string()).message(),
        "surject: enum path must have at least 2 segments (e.g. `Enum::Variant`), got: `B`"
    );
    assert_eq!(
        MacroError::NotAFunction("expected `fn`".to_string()).message(),
        "expected a function or a `let` binding: expected `fn`"
    );
}

// -- whole functions ----------------------------------------------------------

#[test]
fn empty_match_in_function_is_refused() {
    let func = item_fn("fn f(a: Never) -> Foo { match a {} }");
    assert_eq!(
        error_message(expand_function(Property::Surjective, "surject", &func)),
        "surject: match must have at least one arm"
    );
}

#[test]
fn short_output_path_is_refused_by_surjectivity_only() {
    let func = item_fn("fn f(a: Foo) -> Foo { match a { Foo::A => B, Foo::B => C } }");
    assert_eq!(
        error_message(expand_function(Property::Surjective, "surject", &func)),
        "surject: enum path must have at least 2 segments (e.g. `Enum::Variant`), got: `B`"
    );
    let out = expand_function(Property::Injective, "inject", &func).unwrap();
    assert!(!out.to_string().contains("compile_error"));
}

#[test]
fn bijectivity_checks_injectivity_first() {
    let func = item_fn("fn f(a: Foo) -> Foo { match a { Foo::A => B, Foo::B => B } }");
    let out = expand_function(Property::Bijective, "biject", &func).unwrap();
    assert!(out.to_string().contains("compile_error"));
    assert!(out.to_string().contains("not injective"));
}

#[test]
fn outermost_match_is_checked() {
    let func = item_fn(
        "fn f(a: A, b: B) -> C { match a { A::X => match b { B::Y => C::Z }, A::W => C::Z } }",
    );
    assert_eq!(
        error_message(expand_function(Property::Surjective, "surject", &func)),
        "surject: every arm body must be an enum variant path (e.g. `Enum::Variant`)"
    );
}

#[test]
fn match_in_a_let_is_found() {
    let func = item_fn("fn f(a: A) -> B { let b = match a { A::X => B::Y }; b }");
    assert_eq!(item_names(&impl_surject_macro("surject", &func)), vec!["f", "surjectivity_check_f"]);
}

#[test]
fn raw_function_name_is_unraw_in_companion() {
    let func = item_fn("fn r#match(l: L) -> L { match l { L::A => L::B } }");
    assert_eq!(
        item_names(&impl_surject_macro("surject", &func)),
        vec!["r#match", "surjectivity_check_match"]
    );
}

#[test]
fn leading_colon_output_type_is_kept() {
    let func = item_fn("fn f(a: A) -> B { match a { A::X => ::m::B::Y } }");
    let items = syn::parse_file(&impl_surject_macro("surject", &func).to_string())
        .unwrap()
        .items;
    let syn::Item::Fn(check) = &items[1] else { panic!("expected fn") };
    let syn::FnArg::Typed(arg) = &check.sig.inputs[0] else { panic!("expected typed arg") };
    assert_eq!(quote::ToTokens::to_token_stream(&*arg.ty).to_string(), ":: m :: B");
}

#[test]
fn find_and_validate_reads_the_outer_match_in_order() {
    let func = item_fn(
        "fn f(a: Foo) -> Bar { match (match a { Foo::A => Foo::B }) { Foo::A => Bar::X, Foo::B => Bar::Y, Foo::C => Bar::Z } }",
    );
    let arms = find_and_validate("surject", &func);
    let texts: Vec<String> = arms
        .iter()
        .map(|a| match &a.body {
            ArmBody::Path(p) => p.text.clone(),
            ArmBody::Other => panic!("expected a path body"),
        })
        .collect();
    assert_eq!(texts, vec!["Bar :: X", "Bar :: Y", "Bar :: Z"]);
}

#[test]
fn finder_keeps_the_first_match() {
    let first: syn::ExprMatch = syn::parse_str("match a { A::X => B::Y }").unwrap();
    let second: syn::ExprMatch = syn::parse_str("match c { C::X => D::Y }").unwrap();
    let mut finder = MatchFinder { found: None };
    finder.visit_expr_match(&first);
    finder.visit_expr_match(&second);
    assert!(std::ptr::eq(finder.found.unwrap(), &first));
}

use ctor_expand::expander::AnnotationArg;
use ctor_expand::expander::ExpandError;
use ctor_expand::expander::FunctionDef;
use ctor_expand::expander::Platform;
use ctor_expand::expander::Role;
use ctor_expand::expander::TargetItem;
use ctor_expand::expander::expand;
use ctor_expand::expander::gen_ctor;
use ctor_expand::expander::gen_dtor;
use ctor_expand::expander::parse_priority;
use ctor_expand::expander::scope_name;
use ctor_expand::expander::section_name;
use ctor_expand::tokens::classify_args;
use ctor_expand::tokens::classify_item;
use ctor_expand::tokens::constructor;
use ctor_expand::tokens::destructor;
use quote::ToTokens;

fn tokens(text: &str) -> proc_macro2::TokenStream {
    text.parse().unwrap()
}

fn function_def(name: &str, text: &str) -> FunctionDef {
    FunctionDef {
        name: name.to_string(),
        item: syn::parse2::<syn::ItemFn>(tokens(text)).unwrap(),
    }
}

#[test]
fn linux_constructor_scenario() {
    let input = tokens("fn set_ran() { }");
    let frag = constructor(proc_macro2::TokenStream::new(), input.clone(), Platform::LinuxLike)
        .unwrap();
    assert_eq!(frag.scope_name, "set_ran_ctor");
    assert_eq!(frag.symbol_name, "set_ran");
    assert_eq!(frag.section, ".ctors");
    assert_eq!(frag.original.name, "set_ran");
    assert_eq!(frag.original.item.to_token_stream().to_string(), input.to_string());
}

#[test]
fn windows_priority_scenario() {
    let input = tokens("fn set_ran() { }");
    let frag = constructor(tokens("5"), input.clone(), Platform::WindowsLike).unwrap();
    assert_eq!(frag.section, ".CRT$XCU");
    assert_eq!(frag.scope_name, "set_ran_ctor");
    assert_eq!(frag.symbol_name, "set_ran");
    // The priority is parsed but appears nowhere in the output.
    assert!(!frag.scope_name.contains('5'));
    assert!(!frag.symbol_name.contains('5'));
    assert!(!frag.section.contains('5'));
    assert_eq!(frag.original.item.to_token_stream().to_string(), input.to_string());
}

#[test]
fn destructor_on_type_fails() {
    let r = destructor(proc_macro2::TokenStream::new(), tokens("struct S ;"), Platform::LinuxLike);
    assert!(matches!(r, Err(ExpandError::UnsupportedTarget)));
}

#[test]
fn constructor_on_type_fails() {
    let r = constructor(proc_macro2::TokenStream::new(), tokens("struct S ;"), Platform::AppleLike);
    assert!(matches!(r, Err(ExpandError::UnsupportedTarget)));
}

#[test]
fn apple_destructor_scenario() {
    let input = tokens("fn reset_ran() { }");
    let frag = destructor(proc_macro2::TokenStream::new(), input.clone(), Platform::AppleLike)
        .unwrap();
    assert_eq!(frag.scope_name, "reset_ran_dtor");
    assert_eq!(frag.symbol_name, "reset_ran");
    assert_eq!(frag.section, "__DATA,__mod_term_func");
    assert_eq!(frag.original.item.to_token_stream().to_string(), input.to_string());
}

#[test]
fn section_table() {
    assert_eq!(section_name(Platform::LinuxLike, Role::Constructor).unwrap(), ".ctors");
    assert_eq!(section_name(Platform::LinuxLike, Role::Destructor).unwrap(), ".dtors");
    assert_eq!(
        section_name(Platform::AppleLike, Role::Constructor).unwrap(),
        "__DATA,__mod_init_func"
    );
    assert_eq!(
        section_name(Platform::AppleLike, Role::Destructor).unwrap(),
        "__DATA,__mod_term_func"
    );
    assert_eq!(section_name(Platform::WindowsLike, Role::Constructor).unwrap(), ".CRT$XCU");
    assert_eq!(section_name(Platform::WindowsLike, Role::Destructor).unwrap(), ".CRT$XPU");
    assert!(matches!(
        section_name(Platform::Other, Role::Constructor),
        Err(ExpandError::UnsupportedPlatform)
    ));
    assert!(matches!(
        section_name(Platform::Other, Role::Destructor),
        Err(ExpandError::UnsupportedPlatform)
    ));
}

#[test]
fn unsupported_platform_fails() {
    let r = constructor(proc_macro2::TokenStream::new(), tokens("fn boot() { }"), Platform::Other);
    assert!(matches!(r, Err(ExpandError::UnsupportedPlatform)));
    let r = destructor(proc_macro2::TokenStream::new(), tokens("fn boot() { }"), Platform::Other);
    assert!(matches!(r, Err(ExpandError::UnsupportedPlatform)));
}

#[test]
fn invalid_priority_fails() {
    let r = constructor(tokens("not_a_number"), tokens("fn boot() { }"), Platform::LinuxLike);
    assert!(matches!(r, Err(ExpandError::InvalidPriority)));
    let r = destructor(tokens("\"five\""), tokens("fn boot() { }"), Platform::LinuxLike);
    assert!(matches!(r, Err(ExpandError::InvalidPriority)));
    let r = constructor(tokens("-1"), tokens("fn boot() { }"), Platform::LinuxLike);
    assert!(matches!(r, Err(ExpandError::InvalidPriority)));
}

#[test]
fn non_function_is_refused_before_the_argument() {
    let r = constructor(tokens("not_a_number"), tokens("struct S ;"), Platform::LinuxLike);
    assert!(matches!(r, Err(ExpandError::UnsupportedTarget)));
}

#[test]
fn parse_priority_cases() {
    assert_eq!(parse_priority(&AnnotationArg::Empty), Ok(None));
    assert_eq!(parse_priority(&AnnotationArg::IntLiteral(7)), Ok(Some(7)));
    assert_eq!(
        parse_priority(&AnnotationArg::Invalid),
        Err(ExpandError::InvalidPriority)
    );
}

#[test]
fn classify_args_cases() {
    assert_eq!(classify_args(proc_macro2::TokenStream::new()), AnnotationArg::Empty);
    assert_eq!(classify_args(tokens("5")), AnnotationArg::IntLiteral(5));
    assert_eq!(classify_args(tokens("0")), AnnotationArg::IntLiteral(0));
    assert_eq!(classify_args(tokens("18446744073709551615")), AnnotationArg::IntLiteral(u64::MAX));
    assert_eq!(classify_args(tokens("99999999999999999999999999")), AnnotationArg::Invalid);
    assert_eq!(classify_args(tokens("foo")), AnnotationArg::Invalid);
    assert_eq!(classify_args(tokens("\"5\"")), AnnotationArg::Invalid);
    assert_eq!(classify_args(tokens("-1")), AnnotationArg::Invalid);
    assert_eq!(classify_args(tokens("1 + 2")), AnnotationArg::Invalid);
}

#[test]
fn classify_item_cases() {
    match classify_item(tokens("fn f() { }")) {
        TargetItem::Function(func) => assert_eq!(func.name, "f"),
        TargetItem::NotAFunction => panic!("a function definition was not recognised"),
    }
    assert!(matches!(classify_item(tokens("struct S ;")), TargetItem::NotAFunction));
    assert!(matches!(classify_item(tokens("mod m { }")), TargetItem::NotAFunction));
    assert!(matches!(classify_item(tokens("const K : u8 = 1 ;")), TargetItem::NotAFunction));
}

#[test]
fn gen_fragments_directly() {
    let frag = gen_ctor(function_def("boot", "fn boot() { }"), None, Platform::LinuxLike).unwrap();
    assert_eq!(frag.scope_name, "boot_ctor");
    assert_eq!(frag.symbol_name, "boot");
    assert_eq!(frag.section, ".ctors");

    let frag = gen_dtor(function_def("boot", "fn boot() { }"), None, Platform::WindowsLike)
        .unwrap();
    assert_eq!(frag.scope_name, "boot_dtor");
    assert_eq!(frag.symbol_name, "boot");
    assert_eq!(frag.section, ".CRT$XPU");
}

#[test]
fn priority_has_no_effect_on_the_fragment() {
    let with_priority = gen_ctor(function_def("boot", "fn boot() { }"), Some(9), Platform::AppleLike)
        .unwrap();
    let without = gen_ctor(function_def("boot", "fn boot() { }"), None, Platform::AppleLike)
        .unwrap();
    assert_eq!(with_priority.scope_name, without.scope_name);
    assert_eq!(with_priority.symbol_name, without.symbol_name);
    assert_eq!(with_priority.section, without.section);
}

#[test]
fn naming_is_deterministic() {
    let first = scope_name("set_ran", Role::Constructor);
    let second = scope_name("set_ran", Role::Constructor);
    assert_eq!(first, second);
    assert_eq!(first, "set_ran_ctor");
    assert_eq!(scope_name("set_ran", Role::Destructor), "set_ran_dtor");
}

#[test]
fn expand_on_the_model() {
    let r = expand(
        Role::Constructor,
        Platform::LinuxLike,
        &AnnotationArg::Empty,
        TargetItem::NotAFunction,
    );
    assert!(matches!(r, Err(ExpandError::UnsupportedTarget)));
    let r = expand(
        Role::Destructor,
        Platform::LinuxLike,
        &AnnotationArg::Invalid,
        TargetItem::Function(function_def("f", "fn f() { }")),
    );
    assert!(matches!(r, Err(ExpandError::InvalidPriority)));
    let r = expand(
        Role::Destructor,
        Platform::Other,
        &AnnotationArg::IntLiteral(3),
        TargetItem::Function(function_def("f", "fn f() { }")),
    );
    assert!(matches!(r, Err(ExpandError::UnsupportedPlatform)));
}

#[test]
fn error_messages() {
    assert_eq!(
        ExpandError::UnsupportedTarget.message(),
        "the annotation is only defined for a function"
    );
    assert_eq!(
        ExpandError::InvalidPriority.message(),
        "the annotation's argument must be a literal non-negative integer"
    );
    assert_eq!(
        ExpandError::UnsupportedPlatform.message(),
        "the compilation target has no known constructor and destructor sections"
    );
}

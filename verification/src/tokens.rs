//! The boundary to the host's token representation: turns the token
//! streams of an annotation invocation into the expander's model, and runs
//! one whole expansion from tokens to fragment.
//!
//! What the host's own functions compute on a token stream is given a name
//! here (what parses as a function, what the annotation's argument is),
//! and the contracts of this module speak of the tokens through those
//! names alone.

use vstd::prelude::*;
use crate::expander::AnnotationArg;
use crate::expander::ExpandError;
use crate::expander::FnModel;
use crate::expander::Fragment;
use crate::expander::FragmentModel;
use crate::expander::FunctionDef;
use crate::expander::Platform;
use crate::expander::Role;
use crate::expander::TargetItem;
use crate::expander::TargetModel;
use crate::expander::expand;
use crate::expander::platform_supported;
use crate::expander::spec_expand;
use crate::expander::spec_fragment;

verus! {

#[verifier::external_type_specification]
#[verifier::external_body]
pub struct ExTokenStream(proc_macro2::TokenStream);

#[verifier::external_type_specification]
#[verifier::external_body]
pub struct ExItemFn(syn::ItemFn);

#[verifier::external_type_specification]
#[verifier::external_body]
pub struct ExLitInt(syn::LitInt);

/// The function definition that the token stream parses as, if it parses
/// as one: the result of syn::parse2::<syn::ItemFn>, which depends on the
/// tokens alone.
pub uninterp spec fn parsed_fn_of(input: proc_macro2::TokenStream) -> Option<syn::ItemFn>;

/// The name of a function definition, as text: the text of the identifier
/// of its signature, which depends on the item alone.
pub uninterp spec fn fn_name_of(item: syn::ItemFn) -> Seq<char>;

/// Whether the token stream holds no token at all: the result of
/// proc_macro2::TokenStream::is_empty, which depends on the tokens alone.
pub uninterp spec fn args_absent_of(args: proc_macro2::TokenStream) -> bool;

/// The integer literal that the token stream is, when it parses as an
/// expression and that expression is an integer literal: the result of
/// syn::parse2::<syn::Expr>, which depends on the tokens alone.
pub uninterp spec fn int_lit_of(args: proc_macro2::TokenStream) -> Option<syn::LitInt>;

/// The value of the integer literal, when it fits in a u64: the result of
/// syn::LitInt::base10_parse::<u64>, which depends on the literal alone.
pub uninterp spec fn lit_value_of(lit: syn::LitInt) -> Option<u64>;

/// Relies on syn::parse2::<syn::ItemFn>: parses the token stream as a
/// function definition, and fails on a stream that is not one. The result
/// is a function of the tokens alone, named [`parsed_fn_of`].
#[verifier::external_body]
fn parse_function(input: proc_macro2::TokenStream) -> (r: Option<syn::ItemFn>)
    ensures
        r == parsed_fn_of(input),
{
    syn::parse2::<syn::ItemFn>(input).ok()
}

/// Relies on the text of proc_macro2::Ident: hands out the name of the
/// function, from the identifier of its signature. The result is a
/// function of the item alone, named [`fn_name_of`].
#[verifier::external_body]
fn function_name(func: &syn::ItemFn) -> (r: String)
    ensures
        r@ == fn_name_of(*func),
{
    func.sig.ident.to_string()
}

/// Relies on proc_macro2::TokenStream::is_empty: whether the annotation
/// was given any argument at all. The result is a function of the tokens
/// alone, named [`args_absent_of`].
#[verifier::external_body]
fn args_empty(args: &proc_macro2::TokenStream) -> (r: bool)
    ensures
        r == args_absent_of(*args),
{
    args.is_empty()
}

/// Relies on syn::parse2::<syn::Expr>: parses the token stream as one
/// expression and hands out the integer literal it is, if that is what it
/// is; any other expression, and a stream that is no expression, come back
/// as None. The result is a function of the tokens alone, named
/// [`int_lit_of`].
#[verifier::external_body]
fn parse_int_literal(args: proc_macro2::TokenStream) -> (r: Option<syn::LitInt>)
    ensures
        r == int_lit_of(args),
{
    match syn::parse2::<syn::Expr>(args) {
        Ok(syn::Expr::Lit(syn::ExprLit { lit: syn::Lit::Int(n), .. })) => Some(n),
        _ => None,
    }
}

/// Relies on syn::LitInt::base10_parse::<u64>: the value of the literal,
/// when it fits in a u64. The result is a function of the literal alone,
/// named [`lit_value_of`].
#[verifier::external_body]
fn int_literal_value(lit: &syn::LitInt) -> (r: Option<u64>)
    ensures
        r == lit_value_of(*lit),
{
    lit.base10_parse::<u64>().ok()
}

/// The model of the annotated item's tokens: the function definition they
/// parse as, under its name, or the mark that they are not one.
pub open spec fn spec_classify_item(input: proc_macro2::TokenStream) -> TargetModel {
    match parsed_fn_of(input) {
        Some(item) => TargetModel::Function(FnModel { name: fn_name_of(item), item }),
        None => TargetModel::NotAFunction,
    }
}

/// The model of the annotation's argument tokens: absent when there are
/// none, the value of the integer literal they are, and invalid otherwise
/// (no integer literal, or one that does not fit in a u64).
pub open spec fn spec_classify_args(args: proc_macro2::TokenStream) -> AnnotationArg {
    if args_absent_of(args) {
        AnnotationArg::Empty
    } else {
        match int_lit_of(args) {
            Some(lit) => match lit_value_of(lit) {
                Some(v) => AnnotationArg::IntLiteral(v),
                None => AnnotationArg::Invalid,
            },
            None => AnnotationArg::Invalid,
        }
    }
}

/// Turns the annotated item's tokens into the expander's model of the
/// target: the function definition with its name, or the mark that the
/// item is not a function.
pub fn classify_item(input: proc_macro2::TokenStream) -> (r: TargetItem)
    ensures
        r@ == spec_classify_item(input),
{
    match parse_function(input) {
        Some(func) => {
            let name = function_name(&func);
            TargetItem::Function(FunctionDef { name, item: func })
        },
        None => TargetItem::NotAFunction,
    }
}

/// Turns the annotation's argument tokens into the expander's model of the
/// argument: absent, a literal integer with its value, or invalid.
pub fn classify_args(args: proc_macro2::TokenStream) -> (r: AnnotationArg)
    ensures
        r == spec_classify_args(args),
{
    if args_empty(&args) {
        AnnotationArg::Empty
    } else {
        match parse_int_literal(args) {
            Some(lit) => match int_literal_value(&lit) {
                Some(v) => AnnotationArg::IntLiteral(v),
                None => AnnotationArg::Invalid,
            },
            None => AnnotationArg::Invalid,
        }
    }
}

/// The constructor annotation: from the annotation's argument tokens, the
/// annotated item's tokens and the compilation target's platform, the
/// fragment to hand back to the compiler, or the error that refuses the
/// expansion.
///
/// The result is exactly the expansion of what the tokens hold: it
/// succeeds if and only if the item parses as a function, the argument is
/// absent or a literal integer, and the platform is supported, and the
/// fragment then carries that function untouched.
pub fn constructor(
    args: proc_macro2::TokenStream,
    input: proc_macro2::TokenStream,
    platform: Platform,
) -> (r: Result<Fragment, ExpandError>)
    ensures
        r matches Ok(frag) ==> spec_expand(
            Role::Constructor,
            platform,
            spec_classify_args(args),
            spec_classify_item(input),
        ) == Ok::<FragmentModel, ExpandError>(frag@),
        r matches Err(e) ==> spec_expand(
            Role::Constructor,
            platform,
            spec_classify_args(args),
            spec_classify_item(input),
        ) == Err::<FragmentModel, ExpandError>(e),
        r is Ok <==> (spec_classify_item(input) is Function && !(spec_classify_args(args)
            is Invalid) && platform_supported(platform)),
        r matches Ok(frag) ==> (parsed_fn_of(input) matches Some(item) && frag@.original.item
            == item && frag@.original.name == fn_name_of(item)),
{
    let target = classify_item(input);
    let arg = classify_args(args);
    expand(Role::Constructor, platform, &arg, target)
}

/// Law: for every annotated item whose tokens parse as a function
/// definition, the constructor expansion with no argument, on a supported
/// platform, produces exactly one fragment: the function itself untouched,
/// one hidden scope named after it with the `_ctor` suffix, and inside it
/// the one symbol aliased to the function's name, placed in the platform's
/// constructor section — and nothing besides.
pub proof fn lemma_constructor_tokens(
    args: proc_macro2::TokenStream,
    input: proc_macro2::TokenStream,
    platform: Platform,
)
    requires
        args_absent_of(args),
        platform_supported(platform),
    ensures
        parsed_fn_of(input) matches Some(item) ==> spec_expand(
            Role::Constructor,
            platform,
            spec_classify_args(args),
            spec_classify_item(input),
        ) == Ok::<FragmentModel, ExpandError>(
            spec_fragment(
                FnModel { name: fn_name_of(item), item },
                Role::Constructor,
                platform,
            ),
        ),
{
}

/// Law: for every annotated item whose tokens parse as a function
/// definition, the destructor expansion with no argument, on a supported
/// platform, produces exactly one fragment: the function itself untouched,
/// one hidden scope named after it with the `_dtor` suffix, and inside it
/// the one symbol aliased to the function's name, placed in the platform's
/// destructor section — and nothing besides.
pub proof fn lemma_destructor_tokens(
    args: proc_macro2::TokenStream,
    input: proc_macro2::TokenStream,
    platform: Platform,
)
    requires
        args_absent_of(args),
        platform_supported(platform),
    ensures
        parsed_fn_of(input) matches Some(item) ==> spec_expand(
            Role::Destructor,
            platform,
            spec_classify_args(args),
            spec_classify_item(input),
        ) == Ok::<FragmentModel, ExpandError>(
            spec_fragment(
                FnModel { name: fn_name_of(item), item },
                Role::Destructor,
                platform,
            ),
        ),
{
}

/// The destructor annotation: as [`constructor`], with the `_dtor` suffix
/// and the platform's destructor section.
pub fn destructor(
    args: proc_macro2::TokenStream,
    input: proc_macro2::TokenStream,
    platform: Platform,
) -> (r: Result<Fragment, ExpandError>)
    ensures
        r matches Ok(frag) ==> spec_expand(
            Role::Destructor,
            platform,
            spec_classify_args(args),
            spec_classify_item(input),
        ) == Ok::<FragmentModel, ExpandError>(frag@),
        r matches Err(e) ==> spec_expand(
            Role::Destructor,
            platform,
            spec_classify_args(args),
            spec_classify_item(input),
        ) == Err::<FragmentModel, ExpandError>(e),
        r is Ok <==> (spec_classify_item(input) is Function && !(spec_classify_args(args)
            is Invalid) && platform_supported(platform)),
        r matches Ok(frag) ==> (parsed_fn_of(input) matches Some(item) && frag@.original.item
            == item && frag@.original.name == fn_name_of(item)),
{
    let target = classify_item(input);
    let arg = classify_args(args);
    expand(Role::Destructor, platform, &arg, target)
}

} // verus!

//! The expansion logic: from an annotation invocation, modelled as plain
//! values, to the fragment that the compiler is handed back, or to the
//! error that refuses the expansion.

use vstd::prelude::*;

verus! {

/// Whether the annotated function is registered to run before the entry
/// point (a constructor) or after it (a destructor).
#[derive(Clone, Copy, PartialEq, Eq, Structural, Debug)]
pub enum Role {
    Constructor,
    Destructor,
}

/// The family of the compilation target. It decides which linker section
/// the generated symbol is placed in; a target outside the three known
/// families has no such section and is refused.
#[derive(Clone, Copy, PartialEq, Eq, Structural, Debug)]
pub enum Platform {
    LinuxLike,
    AppleLike,
    WindowsLike,
    Other,
}

/// The argument of an annotation invocation: absent, a literal
/// non-negative integer (the priority), or anything else, which is
/// refused.
#[derive(Clone, Copy, PartialEq, Eq, Structural, Debug)]
pub enum AnnotationArg {
    Empty,
    IntLiteral(u64),
    Invalid,
}

/// The reasons an expansion is refused. Every failure is fatal to the
/// expansion: no partial output is ever produced.
#[derive(Clone, Copy, PartialEq, Eq, Structural, Debug)]
pub enum ExpandError {
    /// The annotated item is not a function definition.
    UnsupportedTarget,
    /// The annotation's argument is present but is not a literal
    /// non-negative integer.
    InvalidPriority,
    /// The compilation target is not Linux-like, Apple-like or
    /// Windows-like.
    UnsupportedPlatform,
}

/// A function definition: its name, and the parsed item itself, which the
/// expander passes through verbatim and never looks into.
pub struct FunctionDef {
    pub name: String,
    pub item: syn::ItemFn,
}

/// The item an annotation was applied to: a function definition, or
/// anything else, which is refused.
pub enum TargetItem {
    Function(FunctionDef),
    NotAFunction,
}

/// What one expansion produces: the original function, untouched, and the
/// description of exactly one hidden static declaration, to be placed in a
/// scope of its own so that it collides with nothing the function's own
/// scope holds.
pub struct Fragment {
    /// The annotated function, passed through verbatim.
    pub original: FunctionDef,
    /// The name of the hidden scope: the function's name plus the role's
    /// suffix.
    pub scope_name: String,
    /// The name of the static symbol inside the hidden scope, aliased to
    /// the function: the function's own name.
    pub symbol_name: String,
    /// The linker section the symbol is placed in.
    pub section: String,
}

/// The mathematical view of a function definition: the name as a sequence
/// of characters, and the item value carried through untouched.
pub struct FnModel {
    pub name: Seq<char>,
    pub item: syn::ItemFn,
}

/// The mathematical view of an annotation's target.
pub enum TargetModel {
    Function(FnModel),
    NotAFunction,
}

/// The mathematical view of a produced fragment.
pub struct FragmentModel {
    pub original: FnModel,
    pub scope_name: Seq<char>,
    pub symbol_name: Seq<char>,
    pub section: Seq<char>,
}

impl View for FunctionDef {
    type V = FnModel;

    open spec fn view(&self) -> FnModel {
        FnModel { name: self.name@, item: self.item }
    }
}

impl View for TargetItem {
    type V = TargetModel;

    open spec fn view(&self) -> TargetModel {
        match *self {
            TargetItem::Function(func) => TargetModel::Function(func@),
            TargetItem::NotAFunction => TargetModel::NotAFunction,
        }
    }
}

impl View for Fragment {
    type V = FragmentModel;

    open spec fn view(&self) -> FragmentModel {
        FragmentModel {
            original: self.original@,
            scope_name: self.scope_name@,
            symbol_name: self.symbol_name@,
            section: self.section@,
        }
    }
}

/// The suffix that the role appends to the function's name to derive the
/// hidden scope's name.
pub open spec fn role_suffix(role: Role) -> Seq<char> {
    match role {
        Role::Constructor => "_ctor"@,
        Role::Destructor => "_dtor"@,
    }
}

/// The hidden scope's name: derived from the function's name and the role
/// alone.
pub open spec fn spec_scope_name(name: Seq<char>, role: Role) -> Seq<char> {
    name + role_suffix(role)
}

/// Whether the platform is one of the three families the expander knows a
/// linker section for.
pub open spec fn platform_supported(platform: Platform) -> bool {
    platform !is Other
}

/// The table of linker sections, keyed by platform family and role.
pub open spec fn spec_section(platform: Platform, role: Role) -> Seq<char>
    recommends
        platform_supported(platform),
{
    match (platform, role) {
        (Platform::LinuxLike, Role::Constructor) => ".ctors"@,
        (Platform::LinuxLike, Role::Destructor) => ".dtors"@,
        (Platform::AppleLike, Role::Constructor) => "__DATA,__mod_init_func"@,
        (Platform::AppleLike, Role::Destructor) => "__DATA,__mod_term_func"@,
        (Platform::WindowsLike, Role::Constructor) => ".CRT$XCU"@,
        (Platform::WindowsLike, Role::Destructor) => ".CRT$XPU"@,
        (Platform::Other, _) => Seq::<char>::empty(),
    }
}

/// What parsing the annotation's argument yields: the priority when one is
/// given, nothing when the argument is absent, and a refusal otherwise.
pub open spec fn spec_parse_priority(arg: AnnotationArg) -> Result<Option<u64>, ExpandError> {
    match arg {
        AnnotationArg::Empty => Ok(None),
        AnnotationArg::IntLiteral(n) => Ok(Some(n)),
        AnnotationArg::Invalid => Err(ExpandError::InvalidPriority),
    }
}

/// The fragment a successful expansion produces: the function verbatim,
/// the hidden scope named after it with the role's suffix, the symbol
/// aliased to the function's name, and the section of the table.
pub open spec fn spec_fragment(func: FnModel, role: Role, platform: Platform) -> FragmentModel {
    FragmentModel {
        original: func,
        scope_name: spec_scope_name(func.name, role),
        symbol_name: func.name,
        section: spec_section(platform, role),
    }
}

/// One whole expansion: the target must be a function, the argument must
/// parse, the platform must be supported, in that order of refusal; then
/// the fragment is produced.
pub open spec fn spec_expand(
    role: Role,
    platform: Platform,
    arg: AnnotationArg,
    target: TargetModel,
) -> Result<FragmentModel, ExpandError> {
    match target {
        TargetModel::NotAFunction => Err(ExpandError::UnsupportedTarget),
        TargetModel::Function(func) => if arg is Invalid {
            Err(ExpandError::InvalidPriority)
        } else if !platform_supported(platform) {
            Err(ExpandError::UnsupportedPlatform)
        } else {
            Ok(spec_fragment(func, role, platform))
        },
    }
}

impl ExpandError {
    /// The diagnostic text of the error, for the host to report when it
    /// aborts the compilation unit.
    pub fn message(&self) -> (r: String)
        ensures
            r@ == spec_message(*self),
    {
        match self {
            ExpandError::UnsupportedTarget => "the annotation is only defined for a function".to_owned(),
            ExpandError::InvalidPriority => "the annotation's argument must be a literal non-negative integer".to_owned(),
            ExpandError::UnsupportedPlatform => "the compilation target has no known constructor and destructor sections".to_owned(),
        }
    }
}

/// The diagnostic text of each error.
pub open spec fn spec_message(e: ExpandError) -> Seq<char> {
    match e {
        ExpandError::UnsupportedTarget => "the annotation is only defined for a function"@,
        ExpandError::InvalidPriority => "the annotation's argument must be a literal non-negative integer"@,
        ExpandError::UnsupportedPlatform => "the compilation target has no known constructor and destructor sections"@,
    }
}

/// Parses the annotation's argument: no argument means no priority, a
/// literal non-negative integer is the priority, and anything else is
/// refused with `InvalidPriority`.
pub fn parse_priority(arg: &AnnotationArg) -> (r: Result<Option<u64>, ExpandError>)
    ensures
        r == spec_parse_priority(*arg),
        r is Err <==> *arg is Invalid,
{
    match arg {
        AnnotationArg::Empty => Ok(None),
        AnnotationArg::IntLiteral(n) => Ok(Some(*n)),
        AnnotationArg::Invalid => Err(ExpandError::InvalidPriority),
    }
}

/// The linker section for the platform and role, from the table; a
/// platform outside the table is refused with `UnsupportedPlatform`.
pub fn section_name(platform: Platform, role: Role) -> (r: Result<&'static str, ExpandError>)
    ensures
        r is Ok <==> platform_supported(platform),
        r matches Ok(s) ==> s@ == spec_section(platform, role),
        r matches Err(e) ==> e == ExpandError::UnsupportedPlatform,
{
    match (platform, role) {
        (Platform::LinuxLike, Role::Constructor) => Ok(".ctors"),
        (Platform::LinuxLike, Role::Destructor) => Ok(".dtors"),
        (Platform::AppleLike, Role::Constructor) => Ok("__DATA,__mod_init_func"),
        (Platform::AppleLike, Role::Destructor) => Ok("__DATA,__mod_term_func"),
        (Platform::WindowsLike, Role::Constructor) => Ok(".CRT$XCU"),
        (Platform::WindowsLike, Role::Destructor) => Ok(".CRT$XPU"),
        (Platform::Other, _) => Err(ExpandError::UnsupportedPlatform),
    }
}

/// Derives the hidden scope's name: the function's name plus the role's
/// suffix.
pub fn scope_name(name: &str, role: Role) -> (r: String)
    ensures
        r@ == spec_scope_name(name@, role),
{
    let mut s = name.to_owned();
    match role {
        Role::Constructor => s.append("_ctor"),
        Role::Destructor => s.append("_dtor"),
    }
    s
}

/// Assembles the fragment for a function under the given role and
/// platform. The priority is accepted but has no effect on the output: the
/// contract does not mention it.
pub fn gen_fragment(
    func: FunctionDef,
    _priority: Option<u64>,
    role: Role,
    platform: Platform,
) -> (r: Result<Fragment, ExpandError>)
    ensures
        r is Ok <==> platform_supported(platform),
        r matches Ok(frag) ==> frag@ == spec_fragment(func@, role, platform),
        r matches Err(e) ==> e == ExpandError::UnsupportedPlatform,
{
    let section: &'static str = match section_name(platform, role) {
        Ok(s) => s,
        Err(e) => {
            return Err(e);
        },
    };
    let scope = scope_name(func.name.as_str(), role);
    let symbol = func.name.clone();
    Ok(Fragment { original: func, scope_name: scope, symbol_name: symbol, section: section.to_owned() })
}

/// Assembles the constructor fragment for a function: the hidden scope
/// carries the `_ctor` suffix and the symbol goes to the platform's
/// constructor section.
pub fn gen_ctor(func: FunctionDef, priority: Option<u64>, platform: Platform) -> (r: Result<
    Fragment,
    ExpandError,
>)
    ensures
        r is Ok <==> platform_supported(platform),
        r matches Ok(frag) ==> frag@ == spec_fragment(func@, Role::Constructor, platform),
        r matches Err(e) ==> e == ExpandError::UnsupportedPlatform,
{
    gen_fragment(func, priority, Role::Constructor, platform)
}

/// Assembles the destructor fragment for a function: the hidden scope
/// carries the `_dtor` suffix and the symbol goes to the platform's
/// destructor section.
pub fn gen_dtor(func: FunctionDef, priority: Option<u64>, platform: Platform) -> (r: Result<
    Fragment,
    ExpandError,
>)
    ensures
        r is Ok <==> platform_supported(platform),
        r matches Ok(frag) ==> frag@ == spec_fragment(func@, Role::Destructor, platform),
        r matches Err(e) ==> e == ExpandError::UnsupportedPlatform,
{
    gen_fragment(func, priority, Role::Destructor, platform)
}

/// One whole expansion over the library's model of the invocation: refuses
/// a non-function target, then an unparseable argument, then an unknown
/// platform, and otherwise produces the fragment.
pub fn expand(role: Role, platform: Platform, arg: &AnnotationArg, target: TargetItem) -> (r:
    Result<Fragment, ExpandError>)
    ensures
        r matches Ok(frag) ==> spec_expand(role, platform, *arg, target@)
            == Ok::<FragmentModel, ExpandError>(frag@),
        r matches Err(e) ==> spec_expand(role, platform, *arg, target@)
            == Err::<FragmentModel, ExpandError>(e),
        r is Err <==> (target@ is NotAFunction || *arg is Invalid || !platform_supported(
            platform,
        )),
{
    match target {
        TargetItem::NotAFunction => Err(ExpandError::UnsupportedTarget),
        TargetItem::Function(func) => {
            match parse_priority(arg) {
                Err(e) => Err(e),
                Ok(priority) => gen_fragment(func, priority, role, platform),
            }
        },
    }
}

/// Law: expanding a function as a constructor, with no argument, on a
/// supported platform, yields the function itself untouched, exactly one
/// hidden scope named after it with the `_ctor` suffix, a symbol aliased
/// to the function's name, and the platform's constructor section.
pub proof fn lemma_constructor_expansion(func: FnModel, platform: Platform)
    requires
        platform_supported(platform),
    ensures
        spec_expand(Role::Constructor, platform, AnnotationArg::Empty, TargetModel::Function(func))
            == Ok::<FragmentModel, ExpandError>(
            FragmentModel {
                original: func,
                scope_name: func.name + "_ctor"@,
                symbol_name: func.name,
                section: spec_section(platform, Role::Constructor),
            },
        ),
{
}

/// Law: expanding a function as a destructor, with no argument, on a
/// supported platform, yields the function itself untouched, exactly one
/// hidden scope named after it with the `_dtor` suffix, a symbol aliased
/// to the function's name, and the platform's destructor section.
pub proof fn lemma_destructor_expansion(func: FnModel, platform: Platform)
    requires
        platform_supported(platform),
    ensures
        spec_expand(Role::Destructor, platform, AnnotationArg::Empty, TargetModel::Function(func))
            == Ok::<FragmentModel, ExpandError>(
            FragmentModel {
                original: func,
                scope_name: func.name + "_dtor"@,
                symbol_name: func.name,
                section: spec_section(platform, Role::Destructor),
            },
        ),
{
}

/// Law: an annotation applied to anything but a function is refused with
/// `UnsupportedTarget`, whatever the role, the platform and the argument,
/// and produces no output.
pub proof fn lemma_non_function_refused(role: Role, platform: Platform, arg: AnnotationArg)
    ensures
        spec_expand(role, platform, arg, TargetModel::NotAFunction) == Err::<
            FragmentModel,
            ExpandError,
        >(ExpandError::UnsupportedTarget),
{
}

/// Law: an annotation argument that is not a literal non-negative integer
/// is refused with `InvalidPriority`, whatever the role and the platform,
/// whenever the annotated item is a function. (On a non-function target
/// the refusal is `UnsupportedTarget`: the target is checked first.)
pub proof fn lemma_invalid_priority_refused(role: Role, platform: Platform, func: FnModel)
    ensures
        spec_expand(role, platform, AnnotationArg::Invalid, TargetModel::Function(func)) == Err::<
            FragmentModel,
            ExpandError,
        >(ExpandError::InvalidPriority),
{
}

/// Law: the hidden scope's name is derived from the function's name and
/// the role alone: two successful expansions of functions with the same
/// name, under the same role, derive the same scope name, whatever their
/// platforms and arguments.
pub proof fn lemma_naming_deterministic(
    role: Role,
    platform1: Platform,
    platform2: Platform,
    arg1: AnnotationArg,
    arg2: AnnotationArg,
    func1: FnModel,
    func2: FnModel,
    frag1: FragmentModel,
    frag2: FragmentModel,
)
    requires
        func1.name == func2.name,
        spec_expand(role, platform1, arg1, TargetModel::Function(func1))
            == Ok::<FragmentModel, ExpandError>(frag1),
        spec_expand(role, platform2, arg2, TargetModel::Function(func2))
            == Ok::<FragmentModel, ExpandError>(frag2),
    ensures
        frag1.scope_name == frag2.scope_name,
{
}

/// Law: the priority argument is parsed but has no effect on the output:
/// an expansion with a literal integer argument equals the expansion of
/// the same target with no argument at all.
pub proof fn lemma_priority_inert(role: Role, platform: Platform, n: u64, target: TargetModel)
    ensures
        spec_expand(role, platform, AnnotationArg::IntLiteral(n), target) == spec_expand(
            role,
            platform,
            AnnotationArg::Empty,
            target,
        ),
{
}

} // verus!

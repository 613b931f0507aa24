use vstd::prelude::*;

verus! {

/// A type as written in a declaration: the never type `!`, which marks a
/// call that does not return, or any other type, kept as its source text.
pub enum TypeExpr {
    Never,
    Other(String),
}

/// The return type of a function type: none written, or a type after `->`.
pub enum ReturnType {
    Default,
    Type(TypeExpr),
}

/// One parameter of a function type: its name, if one is written, and its
/// type as source text.
pub struct FnArg {
    pub name: Option<String>,
    pub ty: String,
}

/// A bare function type `fn(a: A, b: B) -> R`.
pub struct BareFn {
    pub inputs: Vec<FnArg>,
    pub output: ReturnType,
}

/// The right-hand side of a type alias: a bare function type or some other
/// type form.
pub enum AliasedType {
    BareFn(BareFn),
    Other(String),
}

/// A type alias declaration `<vis> type <ident> = <ty>;`, with the visibility
/// kept as source text (empty when none is written).
pub struct ItemType {
    pub vis: String,
    pub ident: String,
    pub ty: AliasedType,
}

/// Why a declaration cannot be turned into a system call function.
#[derive(Clone, Copy, Debug, PartialEq, Eq, Structural)]
pub enum SyscallError {
    /// The aliased type is not a bare function type.
    NotAFunctionType,
    /// The function type has more parameters than there are argument
    /// registers.
    TooManyArguments,
    /// A parameter has no name, so no variable can be bound to its register.
    UnnamedParameter,
}

/// The message that names the rule a declaration breaks.
pub open spec fn error_message(e: SyscallError) -> Seq<char> {
    match e {
        SyscallError::NotAFunctionType => "Must be a fn type eg. fn(input: usize) -> usize"@,
        SyscallError::TooManyArguments => "A syscall has a maximum of six arguments"@,
        SyscallError::UnnamedParameter => "BareFnArg must have a name"@,
    }
}

impl SyscallError {
    /// A message that names the rule the declaration breaks.
    pub fn message(&self) -> (r: &'static str)
        ensures
            r@ == error_message(*self),
    {
        match self {
            SyscallError::NotAFunctionType => "Must be a fn type eg. fn(input: usize) -> usize",
            SyscallError::TooManyArguments => "A syscall has a maximum of six arguments",
            SyscallError::UnnamedParameter => "BareFnArg must have a name",
        }
    }
}

/// Whether a return type is the never type, that is whether the call
/// diverges.
pub open spec fn is_never(output: ReturnType) -> bool {
    output matches ReturnType::Type(TypeExpr::Never)
}

/// Classifies a return type: true exactly when it is written as the never
/// type `!`.
pub fn never_returns(output: &ReturnType) -> (r: bool)
    ensures
        r == is_never(*output),
{
    match output {
        ReturnType::Default => false,
        ReturnType::Type(ty) => match ty {
            TypeExpr::Never => true,
            TypeExpr::Other(_) => false,
        },
    }
}

/// Every parameter of the list has a name.
pub open spec fn all_named(inputs: Seq<FnArg>) -> bool {
    forall|i: int| 0 <= i < inputs.len() ==> (#[trigger] inputs[i]).name is Some
}

} // verus!

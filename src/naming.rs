use vstd::prelude::*;

verus! {

/// The snake-case form of a name, as convert_case computes it.
pub uninterp spec fn snake_case_of(s: Seq<char>) -> Seq<char>;

/// Relies on convert_case's `Casing::to_case` with `Case::Snake`: the words of
/// the name, lower-cased and joined by underscores. The result depends on the
/// characters alone.
#[verifier::external_body]
fn to_snake_case(s: &str) -> (r: String)
    ensures
        r@ == snake_case_of(s@),
{
    convert_case::Casing::to_case(&s, convert_case::Case::Snake)
}

/// Normalizes a declared name to the lower-case, underscore-separated form
/// that the generated function carries.
pub fn function_name(ident: &String) -> (r: String)
    ensures
        r@ == snake_case_of(ident@),
{
    to_snake_case(ident.as_str())
}

} // verus!

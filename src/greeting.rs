use vstd::prelude::*;

verus! {

/// The welcome line shown to `name`.
pub open spec fn greeting_text(name: Seq<char>) -> Seq<char> {
    "Bienvenido a "@ + name + ", la suite local de análisis periodístico."@
}

/// Builds the welcome line for `name`.
pub fn greet(name: &str) -> (r: String)
    ensures
        r@ == greeting_text(name@),
{
    String::from_str("Bienvenido a ").concat(name).concat(
        ", la suite local de análisis periodístico.",
    )
}

} // verus!

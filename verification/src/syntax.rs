//! The syntax of a trait declaration, as far as semantic resolution reads it.

use vstd::prelude::*;
use crate::ids::SyntaxStablePtrId;

verus! {

/// One entry of a declaration's generic parameter list.
#[derive(Clone, Copy, Debug, PartialEq, Eq, Hash, Structural)]
pub struct GenericParamSyntax {
    pub stable_ptr: SyntaxStablePtrId,
    /// The parser found no name for the parameter.
    pub name_missing: bool,
    /// The parser could not make sense of the parameter's bound.
    pub bound_malformed: bool,
}

/// One attribute written above a declaration.
#[derive(Clone, Debug, PartialEq, Eq, Hash)]
pub struct AttributeSyntax {
    pub stable_ptr: SyntaxStablePtrId,
    pub name: String,
}

/// The syntax node of a trait declaration. Both lists are in the order in
/// which the source has them.
#[derive(Clone, Debug, PartialEq, Eq)]
pub struct TraitAst {
    pub generic_params: Vec<GenericParamSyntax>,
    pub attributes: Vec<AttributeSyntax>,
}

} // verus!

//! Identifiers of the things that semantic analysis speaks of.

use vstd::prelude::*;

verus! {

/// Identifies a module: the compilation unit that owns a set of declarations.
#[derive(Clone, Copy, Debug, PartialEq, Eq, Hash, Structural)]
pub struct ModuleId(pub u64);

/// A pointer to a syntax node that survives edits elsewhere in the file.
#[derive(Clone, Copy, Debug, PartialEq, Eq, Hash, Structural)]
pub struct SyntaxStablePtrId(pub u64);

/// Identifies a trait declaration by the module that owns it and the syntax
/// node that declares it.
#[derive(Clone, Copy, Debug, PartialEq, Eq, Hash, Structural)]
pub struct TraitId {
    pub module_id: ModuleId,
    pub stable_ptr: SyntaxStablePtrId,
}

impl TraitId {
    /// The module that owns the declaration. The answer does not depend on
    /// whether that module's data can be had.
    pub fn module(&self) -> (module_id: ModuleId)
        ensures
            module_id == self.module_id,
    {
        self.module_id
    }
}

/// Identifies a generic parameter by the module of its declaration site and
/// the syntax node that introduces it.
#[derive(Clone, Copy, Debug, PartialEq, Eq, Hash, Structural)]
pub struct GenericParamId {
    pub module_id: ModuleId,
    pub stable_ptr: SyntaxStablePtrId,
}

/// Identifies a type.
#[derive(Clone, Copy, Debug, PartialEq, Eq, Hash, Structural)]
pub struct TypeId(pub u64);

/// A value bound to a generic parameter at a use site.
#[derive(Clone, Copy, Debug, PartialEq, Eq, Hash, Structural)]
pub enum GenericArgumentId {
    Type(TypeId),
}

} // verus!

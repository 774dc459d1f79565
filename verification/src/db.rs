//! What semantic resolution asks of its surroundings: the traits that a
//! module declares, the resolution of generic parameters and the conversion
//! of attributes.

use vstd::prelude::*;
use crate::attribute::Attribute;
use crate::diagnostic::{SemanticDiagnostic, SemanticDiagnostics};
use crate::ids::{GenericParamId, ModuleId, TraitId};
use crate::syntax::{AttributeSyntax, GenericParamSyntax, TraitAst};

verus! {

/// A trait declaration under the identifier that it was declared with.
struct TraitEntry {
    trait_id: TraitId,
    ast: TraitAst,
}

/// The declaration that `entries` holds for `trait_id`: the one that was
/// added last, if any was.
spec fn find_trait(entries: Seq<TraitEntry>, trait_id: TraitId) -> Option<TraitAst>
    decreases entries.len(),
{
    if entries.len() == 0 {
        None
    } else if entries.last().trait_id == trait_id {
        Some(entries.last().ast)
    } else {
        find_trait(entries.drop_last(), trait_id)
    }
}

/// The traits that one module declares.
///
/// Its view is the map from the identifier of each declared trait to the
/// trait's syntax node.
pub struct ModuleData {
    traits: Vec<TraitEntry>,
}

impl View for ModuleData {
    type V = Map<TraitId, TraitAst>;

    closed spec fn view(&self) -> Map<TraitId, TraitAst> {
        Map::new(
            |trait_id: TraitId| find_trait(self.traits@, trait_id) is Some,
            |trait_id: TraitId| find_trait(self.traits@, trait_id)->0,
        )
    }
}

impl ModuleData {
    /// A module without traits.
    pub fn new() -> (data: Self)
        ensures
            data@ == Map::<TraitId, TraitAst>::empty(),
    {
        let data = ModuleData { traits: Vec::new() };
        assert(data@ =~= Map::<TraitId, TraitAst>::empty());
        data
    }

    /// Declares `trait_id` with the syntax node `ast`. An earlier declaration
    /// under the same identifier is replaced.
    pub fn insert(&mut self, trait_id: TraitId, ast: TraitAst)
        ensures
            final(self)@ == old(self)@.insert(trait_id, ast),
    {
        self.traits.push(TraitEntry { trait_id, ast });
        proof {
            assert(self.traits@.drop_last() == old(self).traits@);
            assert(self@ =~= old(self)@.insert(trait_id, ast));
        }
    }

    /// The syntax node that `trait_id` was declared with, if the module
    /// declares it.
    pub fn get(&self, trait_id: &TraitId) -> (ast: Option<&TraitAst>)
        ensures
            ast == (if self@.contains_key(*trait_id) {
                Some(&self@[*trait_id])
            } else {
                None
            }),
    {
        let mut i: usize = self.traits.len();
        assert(self.traits@.take(i as int) == self.traits@);
        while i > 0
            invariant
                i <= self.traits.len(),
                find_trait(self.traits@, *trait_id) == find_trait(
                    self.traits@.take(i as int),
                    *trait_id,
                ),
            decreases i,
        {
            i -= 1;
            assert(self.traits@.take(i as int + 1).drop_last() == self.traits@.take(i as int));
            if self.traits[i].trait_id == *trait_id {
                return Some(&self.traits[i].ast);
            }
        }
        None
    }
}

/// The capabilities that trait resolution is built on. An implementation
/// stands for one immutable snapshot of the compiler's inputs: every answer
/// is a function of the snapshot and of the question, which is what the spec
/// functions say.
pub trait SemanticGroup {
    /// The traits that `module_id` declares, or `None` where the module's
    /// data cannot be had.
    spec fn module_traits(&self, module_id: ModuleId) -> Option<Map<TraitId, TraitAst>>;

    /// The identifier under which the generic parameter `syntax`, written in
    /// `module_id`, is known.
    spec fn generic_param(&self, module_id: ModuleId, syntax: GenericParamSyntax) -> GenericParamId;

    /// The diagnostics that resolving the parameter list `syntax`, written in
    /// `module_id`, gives rise to.
    spec fn generic_params_diagnostics(
        &self,
        module_id: ModuleId,
        syntax: Seq<GenericParamSyntax>,
    ) -> Seq<SemanticDiagnostic>;

    /// The semantic form of the attribute `syntax`.
    spec fn attribute(&self, syntax: AttributeSyntax) -> Attribute;

    /// Looks up the traits of a module.
    fn module_data(&self, module_id: ModuleId) -> (data: Option<&ModuleData>)
        ensures
            match data {
                Some(data) => self.module_traits(module_id) == Some(data@),
                None => self.module_traits(module_id) is None,
            },
    ;

    /// Resolves a generic parameter list: one identifier for each parameter,
    /// in the order of the list. What it finds wrong goes to `diagnostics`,
    /// after what is already there.
    fn semantic_generic_params(
        &self,
        diagnostics: &mut SemanticDiagnostics,
        module_id: ModuleId,
        generic_params: &Vec<GenericParamSyntax>,
    ) -> (ids: Vec<GenericParamId>)
        requires
            old(diagnostics).module() == module_id,
        ensures
            ids@.len() == generic_params@.len(),
            forall|i: int|
                0 <= i < ids@.len() ==> #[trigger] ids@[i] == self.generic_param(
                    module_id,
                    generic_params@[i],
                ),
            final(diagnostics).module() == module_id,
            final(diagnostics)@ == old(diagnostics)@ + self.generic_params_diagnostics(
                module_id,
                generic_params@,
            ),
    ;

    /// Converts an attribute list: one record for each attribute, in the
    /// order of the list. It reports nothing.
    fn ast_attributes_to_semantic(
        &self,
        attributes: &Vec<AttributeSyntax>,
    ) -> (records: Vec<Attribute>)
        ensures
            records@.len() == attributes@.len(),
            forall|i: int|
                0 <= i < records@.len() ==> #[trigger] records@[i] == self.attribute(
                    attributes@[i],
                ),
    ;
}

} // verus!

//! A snapshot held in memory: the modules with their traits, and the plain
//! resolution of generic parameters and attributes.
//!
//! A generic parameter is known by the module it is written in and by its
//! syntax node. A parameter without a name and a parameter with a malformed
//! bound are each reported, and still get their identifier: a declaration
//! with mistakes in it is resolved like any other.

use vstd::prelude::*;
use crate::attribute::Attribute;
use crate::db::{ModuleData, SemanticGroup};
use crate::diagnostic::{SemanticDiagnostic, SemanticDiagnosticKind, SemanticDiagnostics};
use crate::ids::{GenericParamId, ModuleId, TraitId};
use crate::syntax::{AttributeSyntax, GenericParamSyntax, TraitAst};
use crate::trt::{
    diagnostics_of, lemma_data_of_own_declaration, trait_declaration, trait_semantic_data,
};

verus! {

/// What is wrong with one generic parameter written in `module_id`: a
/// missing name first, then a malformed bound.
pub open spec fn param_diagnostics(
    module_id: ModuleId,
    syntax: GenericParamSyntax,
) -> Seq<SemanticDiagnostic> {
    let missing = if syntax.name_missing {
        seq![
            SemanticDiagnostic {
                module_id,
                stable_ptr: syntax.stable_ptr,
                kind: SemanticDiagnosticKind::MissingGenericParamName,
            },
        ]
    } else {
        Seq::empty()
    };
    let malformed = if syntax.bound_malformed {
        seq![
            SemanticDiagnostic {
                module_id,
                stable_ptr: syntax.stable_ptr,
                kind: SemanticDiagnosticKind::MalformedGenericParamBound,
            },
        ]
    } else {
        Seq::empty()
    };
    missing + malformed
}

/// What is wrong with a generic parameter list written in `module_id`: what
/// is wrong with each parameter, in the order of the list.
pub open spec fn params_diagnostics(
    module_id: ModuleId,
    syntax: Seq<GenericParamSyntax>,
) -> Seq<SemanticDiagnostic>
    decreases syntax.len(),
{
    if syntax.len() == 0 {
        Seq::empty()
    } else {
        params_diagnostics(module_id, syntax.drop_last()) + param_diagnostics(
            module_id,
            syntax.last(),
        )
    }
}

/// The data of one module under the module's identifier.
struct ModuleEntry {
    module_id: ModuleId,
    data: ModuleData,
}

/// The traits that `entries` holds for `module_id`: those of the entry that
/// was added last, if any was.
spec fn find_module(
    entries: Seq<ModuleEntry>,
    module_id: ModuleId,
) -> Option<Map<TraitId, TraitAst>>
    decreases entries.len(),
{
    if entries.len() == 0 {
        None
    } else if entries.last().module_id == module_id {
        Some(entries.last().data@)
    } else {
        find_module(entries.drop_last(), module_id)
    }
}

/// A snapshot of the modules, held in memory.
pub struct SnapshotDatabase {
    modules: Vec<ModuleEntry>,
}

impl SnapshotDatabase {
    /// A snapshot in which no module's data can be had.
    pub fn new() -> (db: Self)
        ensures
            forall|module_id: ModuleId| db.module_traits(module_id) is None,
    {
        SnapshotDatabase { modules: Vec::new() }
    }

    /// Makes `data` the data of `module_id`, in place of what the snapshot
    /// had for that module. The other modules stay as they are.
    pub fn set_module_data(&mut self, module_id: ModuleId, data: ModuleData)
        ensures
            final(self).module_traits(module_id) == Some(data@),
            forall|other: ModuleId|
                other != module_id ==> final(self).module_traits(other) == old(
                    self,
                ).module_traits(other),
    {
        self.modules.push(ModuleEntry { module_id, data });
        proof {
            assert(self.modules@.drop_last() == old(self).modules@);
        }
    }
}

impl SemanticGroup for SnapshotDatabase {
    closed spec fn module_traits(&self, module_id: ModuleId) -> Option<Map<TraitId, TraitAst>> {
        find_module(self.modules@, module_id)
    }

    open spec fn generic_param(
        &self,
        module_id: ModuleId,
        syntax: GenericParamSyntax,
    ) -> GenericParamId {
        GenericParamId { module_id, stable_ptr: syntax.stable_ptr }
    }

    open spec fn generic_params_diagnostics(
        &self,
        module_id: ModuleId,
        syntax: Seq<GenericParamSyntax>,
    ) -> Seq<SemanticDiagnostic> {
        params_diagnostics(module_id, syntax)
    }

    open spec fn attribute(&self, syntax: AttributeSyntax) -> Attribute {
        Attribute { stable_ptr: syntax.stable_ptr, id: syntax.name }
    }

    fn module_data(&self, module_id: ModuleId) -> (data: Option<&ModuleData>) {
        let mut i: usize = self.modules.len();
        assert(self.modules@.take(i as int) == self.modules@);
        while i > 0
            invariant
                i <= self.modules.len(),
                find_module(self.modules@, module_id) == find_module(
                    self.modules@.take(i as int),
                    module_id,
                ),
            decreases i,
        {
            i -= 1;
            assert(self.modules@.take(i as int + 1).drop_last() == self.modules@.take(i as int));
            if self.modules[i].module_id == module_id {
                return Some(&self.modules[i].data);
            }
        }
        None
    }

    fn semantic_generic_params(
        &self,
        diagnostics: &mut SemanticDiagnostics,
        module_id: ModuleId,
        generic_params: &Vec<GenericParamSyntax>,
    ) -> (ids: Vec<GenericParamId>) {
        let mut ids: Vec<GenericParamId> = Vec::new();
        let mut i: usize = 0;
        while i < generic_params.len()
            invariant
                i <= generic_params.len(),
                ids@.len() == i,
                forall|j: int|
                    0 <= j < i ==> #[trigger] ids@[j] == self.generic_param(
                        module_id,
                        generic_params@[j],
                    ),
                diagnostics.module() == module_id,
                diagnostics@ == old(diagnostics)@ + params_diagnostics(
                    module_id,
                    generic_params@.take(i as int),
                ),
            decreases generic_params.len() - i,
        {
            let param = generic_params[i];
            ids.push(GenericParamId { module_id, stable_ptr: param.stable_ptr });
            if param.name_missing {
                diagnostics.report(
                    param.stable_ptr,
                    SemanticDiagnosticKind::MissingGenericParamName,
                );
            }
            if param.bound_malformed {
                diagnostics.report(
                    param.stable_ptr,
                    SemanticDiagnosticKind::MalformedGenericParamBound,
                );
            }
            i += 1;
            proof {
                let done = generic_params@.take(i as int);
                assert(done.drop_last() == generic_params@.take(i as int - 1));
                assert(done.last() == param);
                assert(diagnostics@ =~= old(diagnostics)@ + params_diagnostics(module_id, done));
            }
        }
        assert(generic_params@.take(i as int) == generic_params@);
        ids
    }

    fn ast_attributes_to_semantic(
        &self,
        attributes: &Vec<AttributeSyntax>,
    ) -> (records: Vec<Attribute>) {
        let mut records: Vec<Attribute> = Vec::new();
        let mut i: usize = 0;
        while i < attributes.len()
            invariant
                i <= attributes.len(),
                records@.len() == i,
                forall|j: int|
                    0 <= j < i ==> #[trigger] records@[j] == self.attribute(attributes@[j]),
            decreases attributes.len() - i,
        {
            let syntax = &attributes[i];
            records.push(Attribute { stable_ptr: syntax.stable_ptr, id: syntax.name.clone() });
            i += 1;
        }
        records
    }
}

/// What a snapshot knows of a trait depends on the trait's own declaration
/// and on nothing else in the snapshot: two snapshots that hold the same
/// declaration for a trait, or both none, know the same of it, diagnostics
/// included, however they differ in other traits and modules.
pub proof fn lemma_snapshot_data_of_own_declaration(
    first: &SnapshotDatabase,
    second: &SnapshotDatabase,
    trait_id: TraitId,
)
    requires
        trait_declaration(first, trait_id) == trait_declaration(second, trait_id),
    ensures
        trait_semantic_data(first, trait_id) == trait_semantic_data(second, trait_id),
{
    lemma_data_of_own_declaration(first, second, trait_id);
}

/// `record` lies in `module_id` and points at a parameter of `syntax`.
pub open spec fn points_into(
    record: SemanticDiagnostic,
    module_id: ModuleId,
    syntax: Seq<GenericParamSyntax>,
) -> bool {
    &&& record.module_id == module_id
    &&& exists|j: int| 0 <= j < syntax.len() && #[trigger] syntax[j].stable_ptr == record.stable_ptr
}

/// Every diagnostic of a parameter list lies in the list's module and points
/// at a parameter of the list.
pub proof fn lemma_params_diagnostics_point_into_list(
    module_id: ModuleId,
    syntax: Seq<GenericParamSyntax>,
)
    ensures
        forall|i: int|
            0 <= i < params_diagnostics(module_id, syntax).len() ==> points_into(
                #[trigger] params_diagnostics(module_id, syntax)[i],
                module_id,
                syntax,
            ),
    decreases syntax.len(),
{
    if syntax.len() > 0 {
        let front = syntax.drop_last();
        lemma_params_diagnostics_point_into_list(module_id, front);
        let records = params_diagnostics(module_id, syntax);
        let earlier = params_diagnostics(module_id, front);
        assert forall|i: int| 0 <= i < records.len() implies points_into(
            #[trigger] records[i],
            module_id,
            syntax,
        ) by {
            if i < earlier.len() {
                assert(records[i] == earlier[i]);
                assert(points_into(earlier[i], module_id, front));
                let j = choose|j: int|
                    0 <= j < front.len() && #[trigger] front[j].stable_ptr == earlier[i].stable_ptr;
                assert(syntax[j].stable_ptr == records[i].stable_ptr);
            } else {
                let last = syntax.len() - 1;
                assert(syntax[last].stable_ptr == records[i].stable_ptr);
            }
        }
    }
}

/// No parameter node of `one` is a parameter node of `other`.
pub open spec fn share_no_parameter(
    one: Seq<GenericParamSyntax>,
    other: Seq<GenericParamSyntax>,
) -> bool {
    forall|i: int, j: int|
        0 <= i < one.len() && 0 <= j < other.len() ==> (#[trigger] one[i]).stable_ptr != (
        #[trigger] other[j]).stable_ptr
}

/// In a snapshot no diagnostic of one trait is in the set of another, where
/// the two declarations lie in different modules or share no parameter node.
pub proof fn lemma_snapshot_diagnostics_isolated(
    db: &SnapshotDatabase,
    one: TraitId,
    other: TraitId,
)
    requires
        trait_declaration(db, one) is Some,
        trait_declaration(db, other) is Some,
        one.module_id != other.module_id || share_no_parameter(
            trait_declaration(db, one)->0.generic_params@,
            trait_declaration(db, other)->0.generic_params@,
        ),
    ensures
        forall|i: int, j: int|
            0 <= i < diagnostics_of(db, one).len() && 0 <= j < diagnostics_of(db, other).len()
                ==> #[trigger] diagnostics_of(db, one)[i] != #[trigger] diagnostics_of(
                db,
                other,
            )[j],
{
    let params_one = trait_declaration(db, one)->0.generic_params@;
    let params_other = trait_declaration(db, other)->0.generic_params@;
    lemma_params_diagnostics_point_into_list(one.module_id, params_one);
    lemma_params_diagnostics_point_into_list(other.module_id, params_other);
    let of_one = diagnostics_of(db, one);
    let of_other = diagnostics_of(db, other);
    assert forall|i: int, j: int|
        0 <= i < of_one.len() && 0 <= j < of_other.len() implies #[trigger] of_one[i]
        != #[trigger] of_other[j] by {
        assert(points_into(of_one[i], one.module_id, params_one));
        assert(points_into(of_other[j], other.module_id, params_other));
        if of_one[i] == of_other[j] {
            let k = choose|k: int|
                0 <= k < params_one.len() && #[trigger] params_one[k].stable_ptr
                    == of_one[i].stable_ptr;
            let l = choose|l: int|
                0 <= l < params_other.len() && #[trigger] params_other[l].stable_ptr
                    == of_other[j].stable_ptr;
            assert(params_one[k].stable_ptr == params_other[l].stable_ptr);
        }
    }
}

} // verus!

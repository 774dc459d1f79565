//! Trait declarations: what is known of one, and how it is computed.

use vstd::prelude::*;
use crate::attribute::Attribute;
use crate::db::SemanticGroup;
use crate::diagnostic::{Diagnostics, SemanticDiagnostic, SemanticDiagnostics, all_in_module};
use crate::ids::{GenericArgumentId, GenericParamId, TraitId};
use crate::syntax::{AttributeSyntax, GenericParamSyntax, TraitAst};

verus! {

/// A concrete trait in its long form: a trait and the generic arguments that
/// it is instantiated with, bound by position.
#[derive(Clone, Debug, Hash, PartialEq, Eq)]
pub struct ConcreteTraitLongId {
    pub trait_id: TraitId,
    pub generic_args: Vec<GenericArgumentId>,
}

/// The value of a [`ConcreteTraitLongId`]. Two long forms are the same
/// concrete trait exactly when their values are equal.
pub struct ConcreteTraitLongIdView {
    pub trait_id: TraitId,
    pub generic_args: Seq<GenericArgumentId>,
}

impl View for ConcreteTraitLongId {
    type V = ConcreteTraitLongIdView;

    open spec fn view(&self) -> ConcreteTraitLongIdView {
        ConcreteTraitLongIdView { trait_id: self.trait_id, generic_args: self.generic_args@ }
    }
}

impl ConcreteTraitLongId {
    /// Whether `self` and `other` are the same concrete trait: the same
    /// trait, with equal arguments at every position.
    pub fn same_as(&self, other: &ConcreteTraitLongId) -> (same: bool)
        ensures
            same == (self@ == other@),
    {
        if !(self.trait_id == other.trait_id) {
            return false;
        }
        if self.generic_args.len() != other.generic_args.len() {
            return false;
        }
        let mut i: usize = 0;
        while i < self.generic_args.len()
            invariant
                i <= self.generic_args.len(),
                self.generic_args.len() == other.generic_args.len(),
                forall|j: int| 0 <= j < i ==> self.generic_args@[j] == other.generic_args@[j],
            decreases self.generic_args.len() - i,
        {
            if !(self.generic_args[i] == other.generic_args[i]) {
                return false;
            }
            i += 1;
        }
        assert(self.generic_args@ =~= other.generic_args@);
        true
    }
}

/// What is known of one trait declaration.
#[derive(Clone, Debug, PartialEq, Eq)]
pub struct TraitData {
    diagnostics: Diagnostics,
    generic_params: Vec<GenericParamId>,
    attributes: Vec<Attribute>,
}

/// The value of a [`TraitData`].
pub struct TraitDataView {
    /// What resolving the declaration found wrong, in the order found.
    pub diagnostics: Seq<SemanticDiagnostic>,
    /// The generic parameters, in the order of the declaration.
    pub generic_params: Seq<GenericParamId>,
    /// The attributes, in the order of the declaration.
    pub attributes: Seq<Attribute>,
}

impl View for TraitData {
    type V = TraitDataView;

    closed spec fn view(&self) -> TraitDataView {
        TraitDataView {
            diagnostics: self.diagnostics@,
            generic_params: self.generic_params@,
            attributes: self.attributes@,
        }
    }
}

impl TraitData {
    /// The diagnostics of the declaration.
    pub fn diagnostics(&self) -> (diagnostics: &Diagnostics)
        ensures
            diagnostics@ == self@.diagnostics,
    {
        &self.diagnostics
    }

    /// The generic parameters of the declaration.
    pub fn generic_params(&self) -> (generic_params: &Vec<GenericParamId>)
        ensures
            generic_params@ == self@.generic_params,
    {
        &self.generic_params
    }

    /// The attributes of the declaration.
    pub fn attributes(&self) -> (attributes: &Vec<Attribute>)
        ensures
            attributes@ == self@.attributes,
    {
        &self.attributes
    }
}

/// The syntax node of `trait_id` in the snapshot `db`. There is none where
/// the data of the owning module cannot be had, and none where that module
/// does not declare the trait.
pub open spec fn trait_declaration<DB: SemanticGroup + ?Sized>(
    db: &DB,
    trait_id: TraitId,
) -> Option<TraitAst> {
    match db.module_traits(trait_id.module_id) {
        Some(traits) => if traits.contains_key(trait_id) {
            Some(traits[trait_id])
        } else {
            None
        },
        None => None,
    }
}

/// The identifiers of the parameter list `syntax`, written in the module of
/// `trait_id`: the identifier of each parameter, at the parameter's place.
pub open spec fn resolved_generic_params<DB: SemanticGroup + ?Sized>(
    db: &DB,
    trait_id: TraitId,
    syntax: Seq<GenericParamSyntax>,
) -> Seq<GenericParamId> {
    Seq::new(syntax.len(), |i: int| db.generic_param(trait_id.module_id, syntax[i]))
}

/// The records of the attribute list `syntax`: the record of each attribute,
/// at the attribute's place.
pub open spec fn converted_attributes<DB: SemanticGroup + ?Sized>(
    db: &DB,
    syntax: Seq<AttributeSyntax>,
) -> Seq<Attribute> {
    Seq::new(syntax.len(), |i: int| db.attribute(syntax[i]))
}

/// What the snapshot `db` knows of `trait_id`: nothing where the trait has
/// no declaration in it, else the resolution of the declaration's generic
/// parameters, the conversion of its attributes, and the diagnostics of that
/// resolution and of nothing else.
pub open spec fn trait_semantic_data<DB: SemanticGroup + ?Sized>(
    db: &DB,
    trait_id: TraitId,
) -> Option<TraitDataView> {
    match trait_declaration(db, trait_id) {
        Some(ast) => Some(
            TraitDataView {
                diagnostics: db.generic_params_diagnostics(
                    trait_id.module_id,
                    ast.generic_params@,
                ),
                generic_params: resolved_generic_params(db, trait_id, ast.generic_params@),
                attributes: converted_attributes(db, ast.attributes@),
            },
        ),
        None => None,
    }
}

/// The diagnostics of `trait_id` in the snapshot `db`. A trait of which
/// nothing is known has none.
pub open spec fn diagnostics_of<DB: SemanticGroup + ?Sized>(
    db: &DB,
    trait_id: TraitId,
) -> Seq<SemanticDiagnostic> {
    match trait_semantic_data(db, trait_id) {
        Some(data) => data.diagnostics,
        None => Seq::empty(),
    }
}

/// The generic parameters of `trait_id` in the snapshot `db`, or `None`
/// where nothing is known of the trait.
pub open spec fn generic_params_of<DB: SemanticGroup + ?Sized>(
    db: &DB,
    trait_id: TraitId,
) -> Option<Seq<GenericParamId>> {
    match trait_semantic_data(db, trait_id) {
        Some(data) => Some(data.generic_params),
        None => None,
    }
}

/// The attributes of `trait_id` in the snapshot `db`, or `None` where nothing
/// is known of the trait.
pub open spec fn attributes_of<DB: SemanticGroup + ?Sized>(
    db: &DB,
    trait_id: TraitId,
) -> Option<Seq<Attribute>> {
    match trait_semantic_data(db, trait_id) {
        Some(data) => Some(data.attributes),
        None => None,
    }
}

/// The value of an optional vector.
pub open spec fn list_value<T>(list: Option<Vec<T>>) -> Option<Seq<T>> {
    match list {
        Some(list) => Some(list@),
        None => None,
    }
}

/// The value of an optional [`TraitData`].
pub open spec fn trait_data_value(data: Option<TraitData>) -> Option<TraitDataView> {
    match data {
        Some(data) => Some(data@),
        None => None,
    }
}

/// Computes what is known of a trait declaration, from the declaration's
/// syntax node.
///
/// Returns `None` where the data of the owning module cannot be had, and
/// where that module does not declare the trait. A declaration that is
/// there always gives `Some`, whatever is wrong with it: what is wrong is in
/// the diagnostics. The diagnostics are collected in a collector of this
/// call's own, bound to the owning module, so they all lie in that module.
pub fn priv_trait_semantic_data<DB: SemanticGroup + ?Sized>(
    db: &DB,
    trait_id: TraitId,
) -> (data: Option<TraitData>)
    ensures
        trait_data_value(data) == trait_semantic_data(db, trait_id),
        data is Some ==> all_in_module(data->0@.diagnostics, trait_id.module_id),
{
    let module_id = trait_id.module();
    let mut diagnostics = SemanticDiagnostics::new(module_id);
    let module_data = db.module_data(module_id)?;
    let trait_ast = module_data.get(&trait_id)?;

    let generic_params = db.semantic_generic_params(
        &mut diagnostics,
        module_id,
        &trait_ast.generic_params,
    );
    let attributes = db.ast_attributes_to_semantic(&trait_ast.attributes);
    proof {
        assert(generic_params@ =~= resolved_generic_params(
            db,
            trait_id,
            trait_ast.generic_params@,
        ));
        assert(attributes@ =~= converted_attributes(db, trait_ast.attributes@));
        assert(diagnostics@ =~= db.generic_params_diagnostics(
            module_id,
            trait_ast.generic_params@,
        ));
    }
    Some(TraitData { diagnostics: diagnostics.build(), generic_params, attributes })
}

/// The diagnostics of a trait declaration. Where nothing is known of the
/// trait the set is empty: the absence is reported by whoever looked for the
/// module's data.
pub fn trait_semantic_diagnostics<DB: SemanticGroup + ?Sized>(
    db: &DB,
    trait_id: TraitId,
) -> (diagnostics: Diagnostics)
    ensures
        diagnostics@ == diagnostics_of(db, trait_id),
        all_in_module(diagnostics@, trait_id.module_id),
{
    match priv_trait_semantic_data(db, trait_id) {
        Some(data) => data.diagnostics,
        None => Diagnostics::default(),
    }
}

/// The generic parameters of a trait declaration, in the order of the
/// declaration; `None` where nothing is known of the trait.
pub fn trait_generic_params<DB: SemanticGroup + ?Sized>(
    db: &DB,
    trait_id: TraitId,
) -> (generic_params: Option<Vec<GenericParamId>>)
    ensures
        list_value(generic_params) == generic_params_of(db, trait_id),
{
    Some(priv_trait_semantic_data(db, trait_id)?.generic_params)
}

/// The attributes of a trait declaration, in the order of the declaration;
/// `None` where nothing is known of the trait.
pub fn trait_attributes<DB: SemanticGroup + ?Sized>(
    db: &DB,
    trait_id: TraitId,
) -> (attributes: Option<Vec<Attribute>>)
    ensures
        list_value(attributes) == attributes_of(db, trait_id),
{
    Some(priv_trait_semantic_data(db, trait_id)?.attributes)
}

/// The resolver is a function of the snapshot and the trait: whatever two
/// calls on the same snapshot and the same trait return has the same value.
/// The resolver writes to nothing but its own result, so a second call adds
/// no diagnostic anywhere.
pub proof fn lemma_resolver_deterministic<DB: SemanticGroup + ?Sized>(
    db: &DB,
    trait_id: TraitId,
    first: Option<TraitData>,
    second: Option<TraitData>,
)
    requires
        trait_data_value(first) == trait_semantic_data(db, trait_id),
        trait_data_value(second) == trait_semantic_data(db, trait_id),
    ensures
        trait_data_value(first) == trait_data_value(second),
{
}

/// Where the data of a module cannot be had, nothing is known of any trait
/// of that module: no data, no generic parameters, no attributes, and an
/// empty set of diagnostics.
pub proof fn lemma_absence_propagates<DB: SemanticGroup + ?Sized>(db: &DB, trait_id: TraitId)
    requires
        db.module_traits(trait_id.module_id) is None,
    ensures
        trait_semantic_data(db, trait_id) is None,
        generic_params_of(db, trait_id) is None,
        attributes_of(db, trait_id) is None,
        diagnostics_of(db, trait_id) == Seq::<SemanticDiagnostic>::empty(),
{
}

/// A trait that its module does not declare is as unknown as a trait of a
/// module without data.
pub proof fn lemma_undeclared_is_absent<DB: SemanticGroup + ?Sized>(db: &DB, trait_id: TraitId)
    requires
        db.module_traits(trait_id.module_id) matches Some(traits) && !traits.contains_key(
            trait_id,
        ),
    ensures
        trait_semantic_data(db, trait_id) is None,
        generic_params_of(db, trait_id) is None,
        attributes_of(db, trait_id) is None,
        diagnostics_of(db, trait_id) == Seq::<SemanticDiagnostic>::empty(),
{
}

/// The set of a trait holds the diagnostics of resolving the trait's own
/// parameter list, all of them and nothing besides.
pub proof fn lemma_diagnostics_of_own_parameters<DB: SemanticGroup + ?Sized>(
    db: &DB,
    trait_id: TraitId,
)
    ensures
        diagnostics_of(db, trait_id) == match trait_declaration(db, trait_id) {
            Some(ast) => db.generic_params_diagnostics(trait_id.module_id, ast.generic_params@),
            None => Seq::empty(),
        },
{
}

/// What is known of a trait depends on the trait's own declaration and on
/// nothing else in the snapshot. Two snapshots that resolve parameters and
/// attributes alike and hold the same declaration for a trait, or both none,
/// know the same of it, however they differ in other traits. So no
/// diagnostic of another trait can show up in this trait's set.
pub proof fn lemma_data_of_own_declaration<DB: SemanticGroup + ?Sized>(
    first: &DB,
    second: &DB,
    trait_id: TraitId,
)
    requires
        trait_declaration(first, trait_id) == trait_declaration(second, trait_id),
        forall|syntax: GenericParamSyntax| #[trigger]
            first.generic_param(trait_id.module_id, syntax) == second.generic_param(
                trait_id.module_id,
                syntax,
            ),
        forall|syntax: Seq<GenericParamSyntax>| #[trigger]
            first.generic_params_diagnostics(trait_id.module_id, syntax)
                == second.generic_params_diagnostics(trait_id.module_id, syntax),
        forall|syntax: AttributeSyntax| #[trigger]
            first.attribute(syntax) == second.attribute(syntax),
    ensures
        trait_semantic_data(first, trait_id) == trait_semantic_data(second, trait_id),
        diagnostics_of(first, trait_id) == diagnostics_of(second, trait_id),
{
    match trait_declaration(first, trait_id) {
        Some(ast) => {
            let one = trait_semantic_data(first, trait_id)->0;
            let two = trait_semantic_data(second, trait_id)->0;
            assert(one.generic_params =~= two.generic_params);
            assert(one.attributes =~= two.attributes);
        },
        None => {},
    }
}

/// A declared trait is always resolved, and its generic parameters and
/// attributes come out in the order of the declaration: as many as were
/// written, the one written at a place standing at that place.
pub proof fn lemma_declaration_order_preserved<DB: SemanticGroup + ?Sized>(
    db: &DB,
    trait_id: TraitId,
)
    requires
        trait_declaration(db, trait_id) is Some,
    ensures
        trait_semantic_data(db, trait_id) is Some,
        ({
            let ast = trait_declaration(db, trait_id)->0;
            let data = trait_semantic_data(db, trait_id)->0;
            &&& data.generic_params.len() == ast.generic_params@.len()
            &&& forall|i: int|
                0 <= i < data.generic_params.len() ==> #[trigger] data.generic_params[i]
                    == db.generic_param(trait_id.module_id, ast.generic_params@[i])
            &&& data.attributes.len() == ast.attributes@.len()
            &&& forall|i: int|
                0 <= i < data.attributes.len() ==> #[trigger] data.attributes[i] == db.attribute(
                    ast.attributes@[i],
                )
        }),
{
}

} // verus!

use semantic::db::{ModuleData, SemanticGroup};
use semantic::diagnostic::{SemanticDiagnosticKind, SemanticDiagnostics};
use semantic::ids::{GenericParamId, ModuleId, SyntaxStablePtrId, TraitId};
use semantic::snapshot::SnapshotDatabase;
use semantic::syntax::{AttributeSyntax, GenericParamSyntax, TraitAst};

fn trait_at(module: u64, ptr: u64) -> TraitId {
    TraitId { module_id: ModuleId(module), stable_ptr: SyntaxStablePtrId(ptr) }
}

fn ast_with_params(ptrs: &[u64]) -> TraitAst {
    TraitAst {
        generic_params: ptrs
            .iter()
            .map(|ptr| GenericParamSyntax {
                stable_ptr: SyntaxStablePtrId(*ptr),
                name_missing: false,
                bound_malformed: false,
            })
            .collect(),
        attributes: vec![],
    }
}

#[test]
fn new_module_declares_nothing() {
    let data = ModuleData::new();
    assert_eq!(data.get(&trait_at(1, 10)), None);
    assert_eq!(data.get(&trait_at(0, 0)), None);
}

#[test]
fn declared_traits_are_found_by_their_identifier() {
    let mut data = ModuleData::new();
    data.insert(trait_at(1, 10), ast_with_params(&[11]));
    data.insert(trait_at(1, 20), ast_with_params(&[21, 22]));

    assert_eq!(data.get(&trait_at(1, 10)), Some(&ast_with_params(&[11])));
    assert_eq!(data.get(&trait_at(1, 20)), Some(&ast_with_params(&[21, 22])));
    assert_eq!(data.get(&trait_at(1, 30)), None);
    // The same syntax pointer in another module is another trait.
    assert_eq!(data.get(&trait_at(2, 10)), None);
}

#[test]
fn declaring_again_replaces_and_leaves_the_rest() {
    let mut data = ModuleData::new();
    data.insert(trait_at(1, 10), ast_with_params(&[11]));
    data.insert(trait_at(1, 20), ast_with_params(&[21]));
    data.insert(trait_at(1, 10), ast_with_params(&[12, 13]));

    assert_eq!(data.get(&trait_at(1, 10)), Some(&ast_with_params(&[12, 13])));
    assert_eq!(data.get(&trait_at(1, 20)), Some(&ast_with_params(&[21])));
}

#[test]
fn snapshot_hands_out_the_data_of_each_module() {
    let mut first = ModuleData::new();
    first.insert(trait_at(1, 10), ast_with_params(&[11]));
    let mut second = ModuleData::new();
    second.insert(trait_at(2, 10), ast_with_params(&[12]));
    let mut db = SnapshotDatabase::new();
    assert!(db.module_data(ModuleId(1)).is_none());
    db.set_module_data(ModuleId(1), first);
    db.set_module_data(ModuleId(2), second);

    let of_one = db.module_data(ModuleId(1)).expect("set above");
    assert_eq!(of_one.get(&trait_at(1, 10)), Some(&ast_with_params(&[11])));
    assert_eq!(of_one.get(&trait_at(2, 10)), None);
    let of_two = db.module_data(ModuleId(2)).expect("set above");
    assert_eq!(of_two.get(&trait_at(2, 10)), Some(&ast_with_params(&[12])));
    assert!(db.module_data(ModuleId(3)).is_none());
}

#[test]
fn snapshot_resolves_parameters_after_what_the_collector_holds() {
    let db = SnapshotDatabase::new();
    let module_id = ModuleId(4);
    let mut diagnostics = SemanticDiagnostics::new(module_id);
    diagnostics.report(SyntaxStablePtrId(1), SemanticDiagnosticKind::MissingGenericParamName);
    let syntax = vec![
        GenericParamSyntax {
            stable_ptr: SyntaxStablePtrId(8),
            name_missing: false,
            bound_malformed: true,
        },
        GenericParamSyntax {
            stable_ptr: SyntaxStablePtrId(9),
            name_missing: false,
            bound_malformed: false,
        },
    ];

    let ids = db.semantic_generic_params(&mut diagnostics, module_id, &syntax);
    assert_eq!(
        ids,
        vec![
            GenericParamId { module_id, stable_ptr: SyntaxStablePtrId(8) },
            GenericParamId { module_id, stable_ptr: SyntaxStablePtrId(9) },
        ]
    );
    let records = diagnostics.build().get_all();
    assert_eq!(records.len(), 2);
    assert_eq!(records[0].stable_ptr, SyntaxStablePtrId(1));
    assert_eq!(records[1].stable_ptr, SyntaxStablePtrId(8));
    assert_eq!(records[1].kind, SemanticDiagnosticKind::MalformedGenericParamBound);
}

#[test]
fn snapshot_converts_attributes_one_for_one() {
    let db = SnapshotDatabase::new();
    let syntax = vec![
        AttributeSyntax { stable_ptr: SyntaxStablePtrId(2), name: "inline".to_string() },
        AttributeSyntax { stable_ptr: SyntaxStablePtrId(1), name: "".to_string() },
    ];

    let records = db.ast_attributes_to_semantic(&syntax);
    assert_eq!(records.len(), 2);
    assert_eq!(records[0].id, "inline");
    assert_eq!(records[0].stable_ptr, SyntaxStablePtrId(2));
    assert_eq!(records[1].id, "");
    assert_eq!(records[1].stable_ptr, SyntaxStablePtrId(1));
    assert!(db.ast_attributes_to_semantic(&vec![]).is_empty());
}

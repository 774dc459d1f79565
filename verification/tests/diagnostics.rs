use semantic::diagnostic::{
    Diagnostics, SemanticDiagnostic, SemanticDiagnosticKind, SemanticDiagnostics,
};
use semantic::ids::{ModuleId, SyntaxStablePtrId};

#[test]
fn collector_without_reports_seals_to_the_empty_set() {
    let sealed = SemanticDiagnostics::new(ModuleId(7)).build();
    assert!(sealed.is_empty());
    assert_eq!(sealed.len(), 0);
    assert_eq!(sealed.get_all(), vec![]);
    assert_eq!(sealed, Diagnostics::new());
}

#[test]
fn reports_are_kept_in_order_and_stamped_with_the_module() {
    let mut diagnostics = SemanticDiagnostics::new(ModuleId(7));
    diagnostics.report(SyntaxStablePtrId(3), SemanticDiagnosticKind::MalformedGenericParamBound);
    diagnostics.report(SyntaxStablePtrId(1), SemanticDiagnosticKind::MissingGenericParamName);
    diagnostics.report(SyntaxStablePtrId(3), SemanticDiagnosticKind::MalformedGenericParamBound);
    let sealed = diagnostics.build();

    assert!(!sealed.is_empty());
    assert_eq!(sealed.len(), 3);
    assert_eq!(
        sealed.get_all(),
        vec![
            SemanticDiagnostic {
                module_id: ModuleId(7),
                stable_ptr: SyntaxStablePtrId(3),
                kind: SemanticDiagnosticKind::MalformedGenericParamBound,
            },
            SemanticDiagnostic {
                module_id: ModuleId(7),
                stable_ptr: SyntaxStablePtrId(1),
                kind: SemanticDiagnosticKind::MissingGenericParamName,
            },
            SemanticDiagnostic {
                module_id: ModuleId(7),
                stable_ptr: SyntaxStablePtrId(3),
                kind: SemanticDiagnosticKind::MalformedGenericParamBound,
            },
        ]
    );
}

#[test]
fn collectors_do_not_share_records() {
    let mut one = SemanticDiagnostics::new(ModuleId(1));
    let mut two = SemanticDiagnostics::new(ModuleId(1));
    one.report(SyntaxStablePtrId(5), SemanticDiagnosticKind::MissingGenericParamName);
    two.report(SyntaxStablePtrId(6), SemanticDiagnosticKind::MissingGenericParamName);
    two.report(SyntaxStablePtrId(7), SemanticDiagnosticKind::MissingGenericParamName);
    let one = one.build();
    let two = two.build();

    assert_eq!(one.len(), 1);
    assert_eq!(two.len(), 2);
    assert_eq!(one.get_all()[0].stable_ptr, SyntaxStablePtrId(5));
    assert_eq!(two.get_all()[0].stable_ptr, SyntaxStablePtrId(6));
    assert_eq!(two.get_all()[1].stable_ptr, SyntaxStablePtrId(7));
}

#[test]
fn default_set_is_empty() {
    let sealed = Diagnostics::default();
    assert!(sealed.is_empty());
    assert_eq!(sealed.len(), 0);
    assert_eq!(sealed, Diagnostics::new());
    assert_eq!(sealed.get_all(), Vec::<SemanticDiagnostic>::new());
}

use kasuari::{
    AddConstraintError, AddEditVariableError, InternalSolverError, Registry,
    RelationalOperator, RemoveConstraintError, RemoveEditVariableError, SuggestValueError, Symbol,
    SymbolKind, Table, Variable,
};

#[test]
fn external_symbol_is_stable() {
    let mut r = Registry::new();
    let a = Variable::from_id(10);
    let b = Variable::from_id(20);
    let sa = r.external_symbol(a).unwrap();
    let sb = r.external_symbol(b).unwrap();
    assert_eq!(sa, Symbol::new(1, SymbolKind::External));
    assert_eq!(sb, Symbol::new(2, SymbolKind::External));
    assert_eq!(r.external_symbol(a).unwrap(), sa);
    assert_eq!(r.symbol_of(b), Some(sb));
    assert_eq!(r.symbol_of(Variable::from_id(30)), None);
    assert_eq!(r.variable_count(), 2);
    assert_eq!(r.variable_at(0), (a, sa));
    assert_eq!(r.variable_at(1), (b, sb));
}

#[test]
fn duplicate_constraint_is_refused() {
    let mut r = Registry::new();
    let tag = r.new_constraint_tag(5, RelationalOperator::Equal, true).unwrap();
    r.commit_constraint(5, tag);
    assert!(r.has_constraint(5));
    assert!(matches!(
        r.new_constraint_tag(5, RelationalOperator::Equal, true),
        Err(AddConstraintError::DuplicateConstraint)
    ));
    assert_eq!(r.remove_constraint(5).unwrap(), tag);
    assert!(!r.has_constraint(5));
}

#[test]
fn unknown_constraint_removal() {
    let mut r = Registry::new();
    assert!(matches!(r.remove_constraint(1), Err(RemoveConstraintError::UnknownConstraint)));
    assert_eq!(r.constraint_tag(1), None);
}

#[test]
fn uncommitted_constraint_is_not_live() {
    let mut r = Registry::new();
    let t = r.new_constraint_tag(8, RelationalOperator::LessOrEqual, false).unwrap();
    assert_eq!(t.marker, Symbol::new(1, SymbolKind::Slack));
    assert_eq!(t.other, Symbol::new(2, SymbolKind::Error));
    assert!(!r.has_constraint(8));
}

#[test]
fn edit_variable_errors() {
    let mut r = Registry::new();
    let v = Variable::from_id(3);
    assert!(matches!(r.check_new_edit(v, true), Err(AddEditVariableError::BadRequiredStrength)));
    assert!(matches!(
        r.edit_for_suggestion(v),
        Err(SuggestValueError::UnknownEditVariable)
    ));
    assert!(r.check_new_edit(v, false).is_ok());
    r.commit_edit(v, 77);
    assert!(r.has_edit_variable(v));
    assert!(matches!(
        r.check_new_edit(v, false),
        Err(AddEditVariableError::DuplicateEditVariable)
    ));
    assert_eq!(r.edit_for_suggestion(v).unwrap(), 77);
    assert_eq!(r.remove_edit(v).unwrap(), 77);
    assert!(matches!(r.remove_edit(v), Err(RemoveEditVariableError::UnknownEditVariable)));
}

#[test]
fn internal_error_converts() {
    let e = InternalSolverError("unbounded objective");
    assert!(matches!(
        AddConstraintError::from(e),
        AddConstraintError::InternalSolverError(InternalSolverError("unbounded objective"))
    ));
    assert!(matches!(
        RemoveConstraintError::from(e),
        RemoveConstraintError::InternalSolverError(_)
    ));
    assert!(matches!(
        RemoveEditVariableError::from(e),
        RemoveEditVariableError::InternalSolverError(_)
    ));
    assert!(matches!(SuggestValueError::from(e), SuggestValueError::InternalSolverError(_)));
}

#[test]
fn table_keeps_insertion_order() {
    let mut t: Table<u32> = Table::new();
    assert!(t.insert(9, 90));
    assert!(t.insert(4, 40));
    assert!(!t.insert(9, 99));
    assert_eq!(t.get(9), Some(90));
    t.set(4, 41);
    t.set(6, 60);
    assert_eq!(t.len(), 3);
    assert_eq!(t.entry_at(0), (9, 90));
    assert_eq!(t.entry_at(1), (4, 41));
    assert_eq!(t.entry_at(2), (6, 60));
    assert_eq!(t.remove(9), Some(90));
    assert_eq!(t.remove(9), None);
    assert!(!t.contains(9));
    assert_eq!(t.entry_at(0), (4, 41));
}

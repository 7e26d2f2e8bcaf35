use kasuari::{all_dummies, RelationalOperator, Symbol, SymbolAllocator, SymbolKind, Tag};

#[test]
fn symbol_new_and_kind() {
    let s = Symbol::new(7, SymbolKind::Slack);
    assert_eq!(s.id(), 7);
    assert_eq!(s.kind(), SymbolKind::Slack);
}

#[test]
fn symbol_invalid_is_zero() {
    let s = Symbol::invalid();
    assert_eq!(s.id(), 0);
    assert_eq!(s.kind(), SymbolKind::Invalid);
}

#[test]
fn symbol_order_by_kind_then_id() {
    let ext9 = Symbol::new(9, SymbolKind::External);
    let slack1 = Symbol::new(1, SymbolKind::Slack);
    let slack3 = Symbol::new(3, SymbolKind::Slack);
    assert!(ext9.precedes(&slack1));
    assert!(!slack1.precedes(&ext9));
    assert!(slack1.precedes(&slack3));
    assert!(!slack3.precedes(&slack3));
}

#[test]
fn allocator_starts_at_one() {
    let mut a = SymbolAllocator::new();
    let s1 = a.next(SymbolKind::External).unwrap();
    let s2 = a.next(SymbolKind::Error).unwrap();
    assert_eq!(s1, Symbol::new(1, SymbolKind::External));
    assert_eq!(s2, Symbol::new(2, SymbolKind::Error));
    assert_eq!(a.remaining(), usize::MAX - 3);
}

#[test]
fn tag_of_soft_inequality() {
    let mut a = SymbolAllocator::new();
    let t = Tag::allocate(&mut a, RelationalOperator::LessOrEqual, false).unwrap();
    assert_eq!(t.marker, Symbol::new(1, SymbolKind::Slack));
    assert_eq!(t.other, Symbol::new(2, SymbolKind::Error));
}

#[test]
fn tag_of_required_inequality() {
    let mut a = SymbolAllocator::new();
    let t = Tag::allocate(&mut a, RelationalOperator::GreaterOrEqual, true).unwrap();
    assert_eq!(t.marker, Symbol::new(1, SymbolKind::Slack));
    assert_eq!(t.other, Symbol::invalid());
    assert_eq!(a.next(SymbolKind::External).unwrap().id(), 2);
}

#[test]
fn tag_of_soft_equality() {
    let mut a = SymbolAllocator::new();
    let t = Tag::allocate(&mut a, RelationalOperator::Equal, false).unwrap();
    assert_eq!(t.marker, Symbol::new(1, SymbolKind::Error));
    assert_eq!(t.other, Symbol::new(2, SymbolKind::Error));
}

#[test]
fn tag_of_required_equality() {
    let mut a = SymbolAllocator::new();
    let t = Tag::allocate(&mut a, RelationalOperator::Equal, true).unwrap();
    assert_eq!(t.marker, Symbol::new(1, SymbolKind::Dummy));
    assert_eq!(t.other, Symbol::invalid());
}

#[test]
fn subject_prefers_first_external() {
    let tag = Tag {
        marker: Symbol::new(3, SymbolKind::Slack),
        other: Symbol::new(4, SymbolKind::Error),
    };
    let cells = vec![
        Symbol::new(3, SymbolKind::Slack),
        Symbol::new(2, SymbolKind::External),
        Symbol::new(1, SymbolKind::External),
    ];
    assert_eq!(tag.choose_subject(&cells, true, true), Symbol::new(2, SymbolKind::External));
}

#[test]
fn subject_falls_back_to_negative_marker() {
    let tag = Tag {
        marker: Symbol::new(3, SymbolKind::Slack),
        other: Symbol::new(4, SymbolKind::Error),
    };
    let cells = vec![Symbol::new(3, SymbolKind::Slack), Symbol::new(4, SymbolKind::Error)];
    assert_eq!(tag.choose_subject(&cells, true, true), tag.marker);
    assert_eq!(tag.choose_subject(&cells, false, true), tag.other);
    assert_eq!(tag.choose_subject(&cells, false, false), Symbol::invalid());
}

#[test]
fn subject_never_a_dummy() {
    let tag = Tag { marker: Symbol::new(5, SymbolKind::Dummy), other: Symbol::invalid() };
    let cells = vec![Symbol::new(5, SymbolKind::Dummy)];
    assert_eq!(tag.choose_subject(&cells, true, true), Symbol::invalid());
}

#[test]
fn dummies_only() {
    assert!(all_dummies(&vec![]));
    assert!(all_dummies(&vec![Symbol::new(1, SymbolKind::Dummy), Symbol::new(2, SymbolKind::Dummy)]));
    assert!(!all_dummies(&vec![Symbol::new(1, SymbolKind::Dummy), Symbol::new(2, SymbolKind::Slack)]));
}

#[test]
fn relational_operator_text() {
    assert_eq!(RelationalOperator::LessOrEqual.to_string(), "<=");
    assert_eq!(RelationalOperator::Equal.to_string(), "==");
    assert_eq!(RelationalOperator::GreaterOrEqual.to_string(), ">=");
}

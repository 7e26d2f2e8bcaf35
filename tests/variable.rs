use kasuari::Variable;

const LEFT: Variable = Variable(0);
const RIGHT: Variable = Variable(1);

#[test]
fn variable_default() {
    assert_ne!(LEFT, RIGHT);
}

#[test]
fn variable_from_id_keeps_id() {
    let v = Variable::from_id(42);
    assert_eq!(v.id(), 42);
    assert_eq!(v, Variable(42));
    assert!(Variable::from_id(1) < Variable::from_id(2));
}

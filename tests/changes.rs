use kasuari::{ChangeLog, Variable};

#[test]
fn publish_reports_moved_values() {
    let mut log = ChangeLog::new();
    let a = Variable::from_id(1);
    let b = Variable::from_id(2);
    let r = log.publish(&vec![(a, 100), (b, 0)]);
    assert_eq!(r, vec![(a, 100)]);
    assert_eq!(log.value_of(a), 100);
    assert_eq!(log.value_of(b), 0);
}

#[test]
fn second_drain_is_empty() {
    let mut log = ChangeLog::new();
    let a = Variable::from_id(1);
    let b = Variable::from_id(2);
    let current = vec![(a, 5), (b, 6)];
    assert_eq!(log.publish(&current), vec![(a, 5), (b, 6)]);
    assert_eq!(log.publish(&current), vec![]);
}

#[test]
fn zero_values_report_nothing() {
    let mut log = ChangeLog::new();
    let current = vec![(Variable::from_id(1), 0), (Variable::from_id(2), 0)];
    assert_eq!(log.publish(&current), vec![]);
}

#[test]
fn latest_value_wins() {
    let mut log = ChangeLog::new();
    let a = Variable::from_id(1);
    assert_eq!(log.publish(&vec![(a, 100)]), vec![(a, 100)]);
    assert_eq!(log.publish(&vec![(a, 0)]), vec![(a, 0)]);
    assert_eq!(log.value_of(a), 0);
}

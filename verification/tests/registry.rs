use sillycord_bot::clock::Timestamp;
use sillycord_bot::error::WorkflowError;
use sillycord_bot::registry::Registry;
use sillycord_bot::snowflake::Snowflake;
use sillycord_bot::structs::account::Account;
use sillycord_bot::structs::vouch::Vouch;

fn id(raw: u64) -> Snowflake {
    Snowflake::new(raw).unwrap()
}

fn account(raw: u64, name: &str) -> Account {
    Account::new(id(raw), name.to_string(), 0)
}

fn vouch(subject: u64, sponsor: u64, secs: i64) -> Vouch {
    Vouch::at(
        account(subject, "subject"),
        account(sponsor, "sponsor"),
        Timestamp::from_unix(secs).unwrap(),
    )
}

fn subjects(registry: &Registry) -> Vec<u64> {
    registry.snapshot().iter().map(|v| v.user.id.get()).collect()
}

#[test]
fn new_registry_is_empty() {
    let registry = Registry::new();
    assert_eq!(registry.len(), 0);
    assert!(registry.snapshot().is_empty());
    assert!(!registry.contains(id(1)));
}

#[test]
fn insert_appends_in_submission_order() {
    let mut registry = Registry::new();
    assert_eq!(registry.insert(vouch(10, 1, 100)), Ok(()));
    assert_eq!(registry.insert(vouch(20, 1, 200)), Ok(()));
    assert_eq!(registry.insert(vouch(30, 2, 300)), Ok(()));
    assert_eq!(subjects(&registry), vec![10, 20, 30]);
    assert_eq!(registry.len(), 3);
}

#[test]
fn insert_refuses_a_second_record_for_the_subject() {
    let mut registry = Registry::new();
    assert_eq!(registry.insert(vouch(10, 1, 100)), Ok(()));
    assert_eq!(registry.insert(vouch(10, 2, 200)), Err(WorkflowError::DuplicateRequest));
    let listed = registry.snapshot();
    assert_eq!(listed.len(), 1);
    assert_eq!(listed[0].vouched_by.id.get(), 1);
    assert_eq!(listed[0].vouch_time.unix(), 100);
}

#[test]
fn take_hands_over_the_record_and_removes_it() {
    let mut registry = Registry::new();
    registry.insert(vouch(10, 1, 100)).unwrap();
    registry.insert(vouch(20, 2, 200)).unwrap();
    let taken = registry.take(id(10)).unwrap();
    assert_eq!(taken.user.id.get(), 10);
    assert_eq!(taken.vouched_by.id.get(), 1);
    assert_eq!(taken.vouch_time.unix(), 100);
    assert!(!registry.contains(id(10)));
    assert!(registry.contains(id(20)));
    assert_eq!(subjects(&registry), vec![20]);
}

#[test]
fn take_twice_finds_nothing_the_second_time() {
    let mut registry = Registry::new();
    registry.insert(vouch(10, 1, 100)).unwrap();
    assert!(registry.take(id(10)).is_some());
    assert!(registry.take(id(10)).is_none());
    assert_eq!(registry.len(), 0);
}

#[test]
fn take_of_an_unknown_subject_changes_nothing() {
    let mut registry = Registry::new();
    registry.insert(vouch(10, 1, 100)).unwrap();
    assert!(registry.take(id(99)).is_none());
    assert_eq!(subjects(&registry), vec![10]);
}

#[test]
fn take_from_the_middle_keeps_the_order_of_the_rest() {
    let mut registry = Registry::new();
    for subject in [10, 20, 30, 40, 50] {
        registry.insert(vouch(subject, 1, subject as i64)).unwrap();
    }
    registry.take(id(30)).unwrap();
    registry.take(id(10)).unwrap();
    assert_eq!(subjects(&registry), vec![20, 40, 50]);
}

#[test]
fn n_submits_and_m_resolutions_leave_n_minus_m_in_order() {
    let mut registry = Registry::new();
    let n = 8u64;
    for subject in 1..=n {
        registry.insert(vouch(subject, 100, subject as i64)).unwrap();
    }
    for subject in [2, 5, 7] {
        assert!(registry.take(id(subject)).is_some());
    }
    assert_eq!(registry.len(), 5);
    assert_eq!(subjects(&registry), vec![1, 3, 4, 6, 8]);
}

#[test]
fn a_resolved_subject_can_be_submitted_afresh() {
    let mut registry = Registry::new();
    registry.insert(vouch(10, 1, 100)).unwrap();
    registry.insert(vouch(20, 1, 150)).unwrap();
    registry.take(id(10)).unwrap();
    assert_eq!(registry.insert(vouch(10, 3, 200)), Ok(()));
    assert_eq!(subjects(&registry), vec![20, 10]);
    let listed = registry.snapshot();
    assert_eq!(listed[1].vouched_by.id.get(), 3);
}

#[test]
fn snapshot_is_a_copy() {
    let mut registry = Registry::new();
    registry.insert(vouch(10, 1, 100)).unwrap();
    let before = registry.snapshot();
    registry.take(id(10)).unwrap();
    assert_eq!(before.len(), 1);
    assert_eq!(before[0].user.id.get(), 10);
    assert_eq!(before[0].user.name, "subject");
    assert!(registry.snapshot().is_empty());
}

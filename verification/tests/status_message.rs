use status_message::CallError;
use status_message::Deployment;
use status_message::PrevStatusMessage;
use status_message::StatusMessage;
use status_message::StrMap;

#[test]
fn set_get_message() {
    let mut contract = StatusMessage::new("bob.near".to_string());
    contract.set_status("bob_near".to_string(), "hello".to_string());
    assert_eq!(
        "hello".to_string(),
        contract.get_status("bob_near".to_string()).unwrap()
    );
}

#[test]
fn get_nonexistent_message() {
    let contract = StatusMessage::new("bob.near".to_string());
    assert_eq!(None, contract.get_status("francis.near".to_string()));
}

#[test]
fn set_status_overwrites() {
    let mut contract = StatusMessage::new("owner".to_string());
    contract.set_status("alice".to_string(), "first".to_string());
    contract.set_status("alice".to_string(), "second".to_string());
    assert_eq!(
        Some("second".to_string()),
        contract.get_status("alice".to_string())
    );
}

#[test]
fn set_status_keeps_other_records() {
    let mut contract = StatusMessage::new("owner".to_string());
    contract.set_status("alice".to_string(), "hi".to_string());
    contract.set_status("bob".to_string(), "yo".to_string());
    assert_eq!(Some("hi".to_string()), contract.get_status("alice".to_string()));
    assert_eq!(Some("yo".to_string()), contract.get_status("bob".to_string()));
}

#[test]
fn empty_strings_are_ordinary_values() {
    let mut contract = StatusMessage::new("".to_string());
    contract.set_status("".to_string(), "".to_string());
    assert_eq!(Some("".to_string()), contract.get_status("".to_string()));
    assert_eq!("", contract.owner_id());
}

#[test]
fn migrate_preserves_records_and_owner() {
    let mut records: StrMap<String> = StrMap::new();
    records.insert("a".to_string(), "x".to_string());
    records.insert("b".to_string(), "y".to_string());
    let prev = PrevStatusMessage::new("old-owner.near".to_string(), records);
    let migrated = StatusMessage::migrate(prev);
    assert_eq!(Some("x".to_string()), migrated.get_status("a".to_string()));
    assert_eq!(Some("y".to_string()), migrated.get_status("b".to_string()));
    assert_eq!(None, migrated.get_status("c".to_string()));
    assert_eq!("old-owner.near", migrated.owner_id());
}

#[test]
fn deployment_new_initializes_once() {
    let mut d = Deployment::fresh();
    assert_eq!(Ok(()), d.call_new("bob.near".to_string()));
    assert_eq!(Ok(()), d.call_set_status("bob_near".to_string(), "hello".to_string()));

    let second = d.call_new("mallory.near".to_string());
    assert_eq!(Err(CallError::AlreadyInitialized), second);

    let kept = d.call_get_status("bob_near".to_string()).unwrap();
    assert_eq!(Some("hello".to_string()), kept);
}

#[test]
fn deployment_migrate_needs_prior_state() {
    let mut d = Deployment::fresh();
    assert_eq!(Err(CallError::NotInitialized), d.call_migrate());
    assert_eq!(
        Err(CallError::NotInitialized),
        d.call_get_status("anyone".to_string())
    );
}

#[test]
fn deployment_accessors_fail_before_init() {
    let mut d = Deployment::fresh();
    assert_eq!(
        Err(CallError::NotInitialized),
        d.call_get_status("alice".to_string())
    );
    assert_eq!(
        Err(CallError::NotInitialized),
        d.call_set_status("alice".to_string(), "hi".to_string())
    );
    assert_eq!(
        Err(CallError::NotInitialized),
        d.call_get_status("alice".to_string())
    );
}

#[test]
fn deployment_migrate_runs_at_most_once() {
    let mut records: StrMap<String> = StrMap::new();
    records.insert("a".to_string(), "x".to_string());
    let prev = PrevStatusMessage::new("owner.near".to_string(), records);
    let mut d = Deployment::with_old_generation(prev);

    assert_eq!(Ok(()), d.call_migrate());
    assert_eq!(
        Some("x".to_string()),
        d.call_get_status("a".to_string()).unwrap()
    );

    assert_eq!(Err(CallError::SchemaMismatch), d.call_migrate());
    assert_eq!(
        Some("x".to_string()),
        d.call_get_status("a".to_string()).unwrap()
    );
}

#[test]
fn deployment_migrate_after_new_is_rejected() {
    let mut d = Deployment::fresh();
    assert_eq!(Ok(()), d.call_new("bob.near".to_string()));
    assert_eq!(Err(CallError::SchemaMismatch), d.call_migrate());
    assert_eq!(Ok(None), d.call_get_status("bob_near".to_string()));
}

#[test]
fn deployment_old_generation_accessors_fail() {
    let records: StrMap<String> = StrMap::new();
    let prev = PrevStatusMessage::new("owner.near".to_string(), records);
    let mut d = Deployment::with_old_generation(prev);
    assert_eq!(
        Err(CallError::SchemaMismatch),
        d.call_get_status("alice".to_string())
    );
    assert_eq!(
        Err(CallError::SchemaMismatch),
        d.call_set_status("alice".to_string(), "hi".to_string())
    );
}

#[test]
fn deployment_scenario() {
    let mut d = Deployment::fresh();
    assert_eq!(Ok(()), d.call_new("bob.near".to_string()));
    assert_eq!(Ok(()), d.call_set_status("bob_near".to_string(), "hello".to_string()));
    assert_eq!(
        Some("hello".to_string()),
        d.call_get_status("bob_near".to_string()).unwrap()
    );
    assert_eq!(None, d.call_get_status("francis.near".to_string()).unwrap());
}

use policy_store::api::lookup_status;
use policy_store::dataconn::DatabaseConnection;
use policy_store::metadata::{AttachedMetadata, User};
use policy_store::status::{NOT_FOUND, OK};
use policy_store::store::{PolicyStore, activation_is_noop, derive_active_version,
    next_version_after};

fn user(id: &str) -> User {
    User { id: id.to_string(), name: "Tester".to_string() }
}

fn meta(name: &str) -> AttachedMetadata {
    AttachedMetadata {
        name: name.to_string(),
        description: format!("{name} description"),
        language: "eflint".to_string(),
    }
}

#[test]
fn version_numbers_are_dense() {
    let mut store = PolicyStore::new();
    let alice = user("alice");
    let v1 = store.add_version_at(&alice, meta("one"), "a".to_string(), 10);
    let v2 = store.add_version_at(&alice, meta("two"), "b".to_string(), 20);
    let v3 = store.add_version_at(&alice, meta("three"), "c".to_string(), 30);
    assert_eq!(v1, 1);
    assert_eq!(v2, 2);
    assert_eq!(v3, 3);
    let versions = store.get_versions();
    let mut numbers: Vec<u64> = versions.iter().map(|(v, _)| *v).collect();
    numbers.sort();
    assert_eq!(numbers, vec![1, 2, 3]);
}

#[test]
fn activate_already_active_appends_no_row() {
    let mut store = PolicyStore::new();
    let alice = user("alice");
    let bob = user("bob");
    store.add_version_at(&alice, meta("one"), "a".to_string(), 10);
    store.activate_at(&alice, 1, 100);
    assert_eq!(store.get_active_version(), Some(1));
    // A second activation of the already-active version is a no-op: were a
    // new ledger row appended, the activator would become bob.
    store.activate_at(&bob, 1, 200);
    assert_eq!(store.get_active_version(), Some(1));
    let activator = store.get_activator().expect("a version is active");
    assert_eq!(activator.id, "alice");
}

#[test]
fn deactivate_without_active_is_noop() {
    let mut store = PolicyStore::new();
    let alice = user("alice");
    store.deactivate_at(&alice, 50);
    assert_eq!(store.get_active_version(), None);
    assert!(store.get_activator().is_none());

    store.add_version_at(&alice, meta("one"), "a".to_string(), 10);
    store.activate_at(&alice, 1, 100);
    store.deactivate_at(&alice, 200);
    assert_eq!(store.get_active_version(), None);
    // Nothing is active any more, so a second deactivation changes nothing.
    store.deactivate_at(&alice, 300);
    assert_eq!(store.get_active_version(), None);
    assert!(store.get_activator().is_none());
}

#[test]
fn add_version_round_trips_metadata_and_content() {
    let mut store = PolicyStore::new();
    let alice = user("alice");
    let attached = AttachedMetadata {
        name: "base policy".to_string(),
        description: "the initial rules".to_string(),
        language: "eflint-json".to_string(),
    };
    let v = store.add_version_at(&alice, attached, "content-body".to_string(), 777);
    let m = store.get_version_metadata(v).expect("the version was just added");
    assert_eq!(m.attached.name, "base policy");
    assert_eq!(m.attached.description, "the initial rules");
    assert_eq!(m.attached.language, "eflint-json");
    assert_eq!(m.created, 777);
    assert_eq!(m.creator.id, "alice");
    assert_eq!(m.creator.name, "John Smith");
    assert_eq!(m.version, v);
    let content = store.get_version_content(v).expect("the version was just added");
    assert_eq!(content, "content-body");
}

#[test]
fn never_issued_version_reads_absent() {
    let mut store = PolicyStore::new();
    let alice = user("alice");
    assert!(store.get_version_metadata(1).is_none());
    assert!(store.get_version_content(1).is_none());
    store.add_version_at(&alice, meta("one"), "a".to_string(), 10);
    store.add_version_at(&alice, meta("two"), "b".to_string(), 20);
    assert!(store.get_version_metadata(0).is_none());
    assert!(store.get_version_content(0).is_none());
    assert!(store.get_version_metadata(3).is_none());
    assert!(store.get_version_content(3).is_none());
    assert!(store.get_version_metadata(2).is_some());
    assert!(store.get_version_content(2).is_some());
}

#[test]
fn submitted_policy_round_trips_through_activation() {
    let mut store = PolicyStore::new();
    let admin = user("admin-7");
    let v = store.add_version_at(
        &admin,
        meta("allow-all"),
        "{\"rule\":\"allow\"}".to_string(),
        1000,
    );
    store.activate_at(&admin, v, 2000);
    assert_eq!(store.get_active_version(), Some(v));
    let activator = store.get_activator().expect("a version is active");
    assert_eq!(activator.id, "admin-7");
    let content = store.get_version_content(v).expect("the version exists");
    assert_eq!(content, "{\"rule\":\"allow\"}");
}

#[test]
fn later_activation_determines_active_version() {
    let mut store = PolicyStore::new();
    let alice = user("alice");
    let bob = user("bob");
    store.add_version_at(&alice, meta("one"), "a".to_string(), 10);
    store.add_version_at(&alice, meta("two"), "b".to_string(), 20);
    store.activate_at(&alice, 1, 100);
    store.activate_at(&bob, 2, 200);
    assert_eq!(store.get_active_version(), Some(2));
    assert_eq!(store.get_activator().expect("active").id, "bob");

    let mut store = PolicyStore::new();
    store.add_version_at(&alice, meta("one"), "a".to_string(), 10);
    store.add_version_at(&alice, meta("two"), "b".to_string(), 20);
    store.activate_at(&bob, 2, 100);
    store.activate_at(&alice, 1, 200);
    assert_eq!(store.get_active_version(), Some(1));
    assert_eq!(store.get_activator().expect("active").id, "alice");
}

#[test]
fn activation_stamp_never_goes_backwards() {
    let mut store = PolicyStore::new();
    let alice = user("alice");
    store.add_version_at(&alice, meta("one"), "a".to_string(), 10);
    store.add_version_at(&alice, meta("two"), "b".to_string(), 20);
    store.activate_at(&alice, 1, 500);
    // A clock that reads earlier than the latest stamp is nudged forward,
    // so the later call still wins.
    store.activate_at(&alice, 2, 400);
    assert_eq!(store.get_active_version(), Some(2));
}

#[test]
fn get_versions_lists_every_version_in_order() {
    let mut store = PolicyStore::new();
    let alice = user("alice");
    store.add_version_at(&alice, meta("one"), "a".to_string(), 10);
    store.add_version_at(&alice, meta("two"), "b".to_string(), 20);
    let versions = store.get_versions();
    assert_eq!(versions.len(), 2);
    assert_eq!(versions[0].0, 1);
    assert_eq!(versions[0].1.attached.name, "one");
    assert_eq!(versions[1].0, 2);
    assert_eq!(versions[1].1.attached.name, "two");
}

#[test]
fn wall_clock_operations_behave_like_stamped_ones() {
    let mut store = PolicyStore::new();
    let alice = user("alice");
    let v = store.add_version(&alice, meta("one"), "a".to_string());
    assert_eq!(v, 1);
    store.activate(&alice, v);
    assert_eq!(store.get_active_version(), Some(v));
    store.deactivate(&alice);
    assert_eq!(store.get_active_version(), None);
}

#[test]
fn lookup_outcomes_map_to_their_status_codes() {
    let mut store = PolicyStore::new();
    let alice = user("alice");
    store.add_version_at(&alice, meta("one"), "a".to_string(), 10);
    assert_eq!(lookup_status(&store.get_version_metadata(1)), OK);
    assert_eq!(lookup_status(&store.get_version_metadata(2)), NOT_FOUND);
}

#[test]
fn driver_decisions_match_the_model() {
    assert_eq!(next_version_after(0), 1);
    assert_eq!(next_version_after(41), 42);
    assert_eq!(derive_active_version(None), None);
    assert_eq!(derive_active_version(Some((3, false))), Some(3));
    assert_eq!(derive_active_version(Some((3, true))), None);
    assert!(activation_is_noop(Some(5), 5));
    assert!(!activation_is_noop(Some(5), 6));
    assert!(!activation_is_noop(None, 5));
}

#[test]
fn connection_contract_reaches_the_store() {
    let mut store = PolicyStore::new();
    let alice = user("alice");
    let v = DatabaseConnection::add_version(
        &mut store,
        &alice,
        meta("one"),
        "body".to_string(),
    )
    .expect("the in-memory store cannot fail");
    assert_eq!(v, 1);
    DatabaseConnection::activate(&mut store, &alice, v).expect("cannot fail");
    let active = DatabaseConnection::get_active_version(&mut store).expect("cannot fail");
    assert_eq!(active, Some(1));
    let listed = DatabaseConnection::get_versions(&mut store).expect("cannot fail");
    assert_eq!(listed.len(), 1);
    let content = DatabaseConnection::get_version_content(&mut store, v).expect("cannot fail");
    assert_eq!(content.as_deref(), Some("body"));
    DatabaseConnection::deactivate(&mut store, &alice).expect("cannot fail");
    let activator = DatabaseConnection::get_activator(&mut store).expect("cannot fail");
    assert!(activator.is_none());
    let metadata = DatabaseConnection::get_version_metadata(&mut store, v).expect("cannot fail");
    assert_eq!(metadata.expect("issued").version, 1);
}

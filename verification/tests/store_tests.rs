use blogi::store::{ProfileRow, ProfileStore};

fn row(did: &str, handle: &str, name: &str) -> ProfileRow {
    ProfileRow {
        did: did.to_string(),
        handle: handle.to_string(),
        display_name: name.to_string(),
        description: Some("hi".to_string()),
        created_at: "2024-01-01T00:00:00Z".to_string(),
        indexed_at: "2024-06-01T00:00:00Z".to_string(),
    }
}

#[test]
fn an_empty_store_holds_nothing() {
    let s = ProfileStore::new();
    assert_eq!(s.len(), 0);
    assert!(s.get_profile("did:plc:abc").is_none());
}

#[test]
fn upsert_inserts_on_first_sight() {
    let mut s = ProfileStore::new();
    s.upsert(row("did:plc:abc", "ann.example", "Ann"));
    assert_eq!(s.len(), 1);
    let got = s.get_profile("did:plc:abc").unwrap();
    assert_eq!(got.handle, "ann.example");
    assert_eq!(got.display_name, "Ann");
}

#[test]
fn upsert_overwrites_on_conflict() {
    let mut s = ProfileStore::new();
    s.upsert(row("did:plc:abc", "ann.example", "Ann"));
    s.upsert(row("did:plc:abc", "ann2.example", "Ann Two"));
    assert_eq!(s.len(), 1);
    let got = s.get_profile("did:plc:abc").unwrap();
    assert_eq!(got.handle, "ann2.example");
    assert_eq!(got.display_name, "Ann Two");
}

#[test]
fn upsert_twice_with_the_same_row_changes_nothing() {
    let mut s = ProfileStore::new();
    s.upsert(row("did:plc:abc", "ann.example", "Ann"));
    s.upsert(row("did:plc:abc", "ann.example", "Ann"));
    assert_eq!(s.len(), 1);
    let got = s.get_profile("did:plc:abc").unwrap();
    assert_eq!(got.did, "did:plc:abc");
    assert_eq!(got.handle, "ann.example");
    assert_eq!(got.display_name, "Ann");
    assert_eq!(got.description.as_deref(), Some("hi"));
    assert_eq!(got.created_at, "2024-01-01T00:00:00Z");
    assert_eq!(got.indexed_at, "2024-06-01T00:00:00Z");
}

#[test]
fn distinct_identifiers_keep_distinct_rows() {
    let mut s = ProfileStore::new();
    s.upsert(row("did:plc:abc", "ann.example", "Ann"));
    s.upsert(row("did:plc:xyz", "bob.example", "Bob"));
    assert_eq!(s.len(), 2);
    assert_eq!(s.get_profile("did:plc:abc").unwrap().display_name, "Ann");
    assert_eq!(s.get_profile("did:plc:xyz").unwrap().display_name, "Bob");
}

#[test]
fn list_profiles_selects_by_did_or_handle_in_storage_order() {
    let mut s = blogi::store::ProfileStore::new();
    s.upsert(row("did:plc:abc", "ann.example", "Ann"));
    s.upsert(row("did:plc:xyz", "bob.example", "Bob"));
    s.upsert(row("did:plc:qqq", "carol.example", "Carol"));
    let ids = vec!["did:plc:abc".to_string(), "carol.example".to_string()];
    let listed = s.list_profiles(&ids);
    assert_eq!(listed.len(), 2);
    assert_eq!(listed[0].display_name, "Ann");
    assert_eq!(listed[1].display_name, "Carol");
}

#[test]
fn list_profiles_with_no_match_is_empty() {
    let mut s = blogi::store::ProfileStore::new();
    s.upsert(row("did:plc:abc", "ann.example", "Ann"));
    let listed = s.list_profiles(&vec!["nobody.example".to_string()]);
    assert!(listed.is_empty());
}

#[test]
fn get_actor_matches_did_or_handle() {
    let mut s = blogi::store::ProfileStore::new();
    s.upsert(row("did:plc:abc", "ann.example", "Ann"));
    assert_eq!(s.get_actor("did:plc:abc").unwrap().display_name, "Ann");
    assert_eq!(s.get_actor("ann.example").unwrap().display_name, "Ann");
    assert!(s.get_actor("bob.example").is_none());
}

#[test]
fn a_row_projects_into_the_detailed_view() {
    let v = blogi::store::profile_view_of_row(&row("did:plc:abc", "ann.example", "Ann")).unwrap();
    assert_eq!(v.did, "did:plc:abc");
    assert_eq!(v.handle, "ann.example");
    assert_eq!(v.display_name.as_deref(), Some("Ann"));
    assert_eq!(v.description.as_deref(), Some("hi"));
    assert_eq!(v.avatar, None);
    assert_eq!(v.banner, None);
    assert_eq!(v.created_at.as_deref(), Some("2024-01-01T00:00:00Z"));
    assert_eq!(v.posts_count, 0);
    assert_eq!(v.indexed_at, "2024-06-01T00:00:00Z");
}

#[test]
fn a_row_with_an_invalid_identifier_does_not_project() {
    let r = blogi::store::profile_view_of_row(&row("broken", "ann.example", "Ann"));
    assert!(matches!(r, Err(blogi::errors::BlogiError::Internal(_))));
}

#[test]
fn a_row_with_an_invalid_handle_does_not_project() {
    let r = blogi::store::profile_view_of_row(&row("did:plc:abc", "not a handle", "Ann"));
    assert!(matches!(r, Err(blogi::errors::BlogiError::Internal(_))));
}

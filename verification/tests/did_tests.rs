use blogi::did::Did;

#[test]
fn parses_a_plc_did() {
    let d = Did::new("did:plc:abc".to_string()).unwrap();
    assert_eq!(d.as_str(), "did:plc:abc");
    assert_eq!(d.method(), "plc");
}

#[test]
fn parses_a_web_did_and_extracts_the_host() {
    let d = Did::new("did:web:example.com".to_string()).unwrap();
    assert_eq!(d.method(), "web");
    assert_eq!(d.after_last_colon(), "example.com");
}

#[test]
fn method_specific_part_may_hold_colons() {
    let d = Did::new("did:web:example.com:u:alice".to_string()).unwrap();
    assert_eq!(d.method(), "web");
    assert_eq!(d.after_last_colon(), "alice");
}

#[test]
fn rejects_a_string_without_the_did_prefix() {
    assert!(Did::new("ann.example".to_string()).is_err());
}

#[test]
fn rejects_an_empty_method() {
    assert!(Did::new("did::abc".to_string()).is_err());
}

#[test]
fn rejects_an_uppercase_method() {
    assert!(Did::new("did:PLC:abc".to_string()).is_err());
}

#[test]
fn rejects_an_empty_method_specific_part() {
    assert!(Did::new("did:plc:".to_string()).is_err());
}

#[test]
fn rejects_a_trailing_colon_or_percent() {
    assert!(Did::new("did:plc:abc:".to_string()).is_err());
    assert!(Did::new("did:plc:abc%".to_string()).is_err());
}

#[test]
fn rejects_a_forbidden_character() {
    assert!(Did::new("did:plc:a/b".to_string()).is_err());
}

#[test]
fn rejects_an_overlong_identifier() {
    let long = format!("did:plc:{}", "a".repeat(2048));
    assert!(Did::new(long).is_err());
}

#[test]
fn accepts_the_full_identifier_character_set() {
    let d = Did::new("did:plc:aZ0._%-:x".to_string()).unwrap();
    assert_eq!(d.as_str(), "did:plc:aZ0._%-:x");
}

#[test]
fn clone_keeps_the_identifier() {
    let d = Did::new("did:plc:abc".to_string()).unwrap();
    let e = d.clone();
    assert_eq!(e.as_str(), "did:plc:abc");
}

#[test]
fn accepts_well_formed_handles() {
    assert!(blogi::handle::valid_handle("ann.example"));
    assert!(blogi::handle::valid_handle("ann.example.com"));
    assert!(blogi::handle::valid_handle("8ball.example"));
    assert!(blogi::handle::valid_handle("a-b.c-d.example"));
}

#[test]
fn rejects_malformed_handles() {
    assert!(!blogi::handle::valid_handle(""));
    assert!(!blogi::handle::valid_handle("ann"));
    assert!(!blogi::handle::valid_handle(".example"));
    assert!(!blogi::handle::valid_handle("ann."));
    assert!(!blogi::handle::valid_handle("ann..example"));
    assert!(!blogi::handle::valid_handle("ann.8example"));
    assert!(!blogi::handle::valid_handle("-ann.example"));
    assert!(!blogi::handle::valid_handle("ann-.example"));
    assert!(!blogi::handle::valid_handle("an_n.example"));
    let long_label = format!("{}.example", "a".repeat(64));
    assert!(!blogi::handle::valid_handle(&long_label));
    let long_total = format!("{}.example", "a.".repeat(130));
    assert!(!blogi::handle::valid_handle(&long_total));
}

use blogi::did::Did;
use blogi::doc::{
    canonical_handle, get_pds_endpoint, get_service_endpoint, strip_at_scheme, DidDocument,
    DidDocumentService,
};
use blogi::resolve::{
    doc_url_for_did, handle_resolution_reply, resolve_from_document, resolve_handle_url,
    start_resolution, ResolutionError, ResolveNext, ResolvedHandle,
};

fn pds_service(url: &str) -> DidDocumentService {
    DidDocumentService {
        id: "#atproto_pds".to_string(),
        _type: "AtprotoPersonalDataServer".to_string(),
        service_endpoint: url.to_string(),
    }
}

fn doc_with_services(aka: Vec<&str>, services: Vec<DidDocumentService>) -> DidDocument {
    DidDocument {
        _context: vec![],
        id: "did:plc:abc".to_string(),
        also_known_as: aka.into_iter().map(|s| s.to_string()).collect(),
        verification_method: vec![],
        service: services,
    }
}

#[test]
fn plc_document_url() {
    let d = Did::new("did:plc:abc".to_string()).unwrap();
    assert_eq!(doc_url_for_did(&d).unwrap(), "https://plc.directory/did:plc:abc");
}

#[test]
fn web_document_url_uses_the_host() {
    let d = Did::new("did:web:example.com".to_string()).unwrap();
    assert_eq!(doc_url_for_did(&d).unwrap(), "https://example.com/.well-known/did.json");
}

#[test]
fn unknown_method_is_unsupported() {
    let d = Did::new("did:key:zabc".to_string()).unwrap();
    assert!(matches!(doc_url_for_did(&d), Err(ResolutionError::UnsupportedMethod)));
}

#[test]
fn handle_lookup_url() {
    let u = resolve_handle_url("https://public.api.example", "ann.example");
    assert_eq!(
        u,
        "https://public.api.example/xrpc/com.atproto.identity.resolveHandle?handle=ann.example"
    );
}

#[test]
fn starting_from_a_handle_asks_the_directory() {
    let next = start_resolution("ann.example", "https://public.api.example").unwrap();
    match next {
        ResolveNext::LookupHandle(u) => assert_eq!(
            u,
            "https://public.api.example/xrpc/com.atproto.identity.resolveHandle?handle=ann.example"
        ),
        _ => panic!("expected a handle lookup"),
    }
}

#[test]
fn starting_from_a_did_fetches_the_document() {
    let next = start_resolution("did:plc:abc", "https://public.api.example").unwrap();
    match next {
        ResolveNext::FetchDocument(d, u) => {
            assert_eq!(d.as_str(), "did:plc:abc");
            assert_eq!(u, "https://plc.directory/did:plc:abc");
        },
        _ => panic!("expected a document fetch"),
    }
}

#[test]
fn starting_from_an_unsupported_did_fails() {
    let r = start_resolution("did:key:zabc", "https://public.api.example");
    assert!(matches!(r, Err(ResolutionError::UnsupportedMethod)));
}

#[test]
fn a_directory_reply_with_a_valid_did_resolves() {
    let reply = ResolvedHandle { did: "did:plc:abc".to_string() };
    assert_eq!(handle_resolution_reply(&reply).unwrap().as_str(), "did:plc:abc");
}

#[test]
fn a_directory_reply_with_an_invalid_did_fails() {
    let reply = ResolvedHandle { did: "not-a-did".to_string() };
    assert!(matches!(handle_resolution_reply(&reply), Err(ResolutionError::InvalidDid)));
}

#[test]
fn service_lookup_finds_the_first_match() {
    let doc = doc_with_services(
        vec![],
        vec![
            DidDocumentService {
                id: "#other".to_string(),
                _type: "Other".to_string(),
                service_endpoint: "https://other.example".to_string(),
            },
            pds_service("https://pds1.example"),
            pds_service("https://pds2.example"),
        ],
    );
    let svc = get_service_endpoint(&doc, "#atproto_pds", "AtprotoPersonalDataServer").unwrap();
    assert_eq!(svc.service_endpoint, "https://pds1.example");
    let pds = get_pds_endpoint(&doc).unwrap();
    assert_eq!(pds.service_endpoint, "https://pds1.example");
}

#[test]
fn service_lookup_requires_id_and_type() {
    let doc = doc_with_services(
        vec![],
        vec![DidDocumentService {
            id: "#atproto_pds".to_string(),
            _type: "SomethingElse".to_string(),
            service_endpoint: "https://pds.example".to_string(),
        }],
    );
    assert!(get_pds_endpoint(&doc).is_none());
}

#[test]
fn strip_at_scheme_removes_only_a_leading_marker() {
    assert_eq!(strip_at_scheme("at://ann.example"), "ann.example");
    assert_eq!(strip_at_scheme("ann.example"), "ann.example");
    assert_eq!(strip_at_scheme("at:/x"), "at:/x");
}

#[test]
fn canonical_handle_takes_the_first_alias() {
    let doc = doc_with_services(vec!["at://ann.example", "at://other.example"], vec![]);
    assert_eq!(canonical_handle(&doc).unwrap(), "ann.example");
    let empty = doc_with_services(vec![], vec![]);
    assert!(canonical_handle(&empty).is_none());
}

#[test]
fn resolving_a_document_without_a_pds_fails() {
    let d = Did::new("did:plc:abc".to_string()).unwrap();
    let doc = doc_with_services(vec!["at://ann.example"], vec![]);
    let r = resolve_from_document("did:plc:abc", d, doc);
    assert!(matches!(r, Err(ResolutionError::NoServiceEndpoint)));
}

#[test]
fn resolving_a_document_with_a_pds_succeeds() {
    let d = Did::new("did:plc:abc".to_string()).unwrap();
    let doc = doc_with_services(vec!["at://ann.example"], vec![pds_service("https://pds.example")]);
    let ri = resolve_from_document("did:plc:abc", d, doc).unwrap();
    assert_eq!(ri.did.as_str(), "did:plc:abc");
    assert_eq!(ri.identity, "did:plc:abc");
    assert_eq!(ri.pds, "https://pds.example");
    assert_eq!(ri.doc.also_known_as[0], "at://ann.example");
}

use vstd::prelude::*;
use vstd::string::*;
use crate::did::{Did, spec_valid_did, spec_did_method, spec_after_last_colon};
use crate::doc::{DidDocument, get_pds_endpoint, spec_find_service};
use crate::text::concat_str;

verus! {

/// Why an identity resolution failed. Terminal for the event being
/// processed, never fatal to the pipeline.
#[derive(Debug)]
pub enum ResolutionError {
    /// The identifier's method is neither `plc` nor `web`.
    UnsupportedMethod,
    /// The identity document declares no data-hosting service endpoint.
    NoServiceEndpoint,
    /// The directory reply for a handle carried an invalid identifier.
    InvalidDid,
    /// The directory could not resolve the handle at all.
    HandleNotResolved,
    /// A network fetch failed; carries the transport's message.
    Network(String),
}

/// A directory reply to a handle lookup.
pub struct ResolvedHandle {
    pub did: String,
}

/// Projection of an identity document: the resolved identifier, the
/// document itself, the identifier or handle the caller started from, and
/// the URL of the data-hosting service.
pub struct ResolvedIdentity {
    pub did: Did,
    pub doc: DidDocument,
    pub identity: String,
    pub pds: String,
}

/// The next fetch a resolution needs; the runtime performs it and feeds
/// the reply back.
pub enum ResolveNext {
    /// Ask the directory to resolve a handle: fetch this URL.
    LookupHandle(String),
    /// Fetch the identity document of this identifier at this URL.
    FetchDocument(Did, String),
}

/// The directory URL that resolves a handle to an identifier.
pub fn resolve_handle_url(resolver_app_view: &str, handle: &str) -> (r: String)
    ensures
        r@ == resolver_app_view@ + "/xrpc/com.atproto.identity.resolveHandle?handle="@
            + handle@,
{
    let mut u = concat_str(resolver_app_view, "/xrpc/com.atproto.identity.resolveHandle?handle=");
    u.append(handle);
    u
}

/// Where the identity document of `did` lives, by its method: the public
/// `plc` directory, or the well-known path on a `web` DID's host. Any other
/// method is unsupported.
pub fn doc_url_for_did(did: &Did) -> (r: Result<String, ResolutionError>)
    ensures
        spec_did_method(did@) == "plc"@ ==> (r matches Ok(u) && u@ == "https://plc.directory/"@
            + did@),
        spec_did_method(did@) == "web"@ ==> (r matches Ok(u) && u@ == "https://"@
            + spec_after_last_colon(did@) + "/.well-known/did.json"@),
        (spec_did_method(did@) != "plc"@ && spec_did_method(did@) != "web"@) ==> (r matches Err(
            e,
        ) && e is UnsupportedMethod),
{
    proof {
        reveal_strlit("plc");
        reveal_strlit("web");
        // the two method names differ in their first character
        assert("plc"@[0] == 'p' && "web"@[0] == 'w');
    }
    let method = did.method();
    if method == String::from_str("plc") {
        Ok(concat_str("https://plc.directory/", did.as_str()))
    } else if method == String::from_str("web") {
        let host = did.after_last_colon();
        let mut u = concat_str("https://", host.as_str());
        u.append("/.well-known/did.json");
        proof {
            assert(u@ =~= "https://"@ + spec_after_last_colon(did@) + "/.well-known/did.json"@);
        }
        Ok(u)
    } else {
        Err(ResolutionError::UnsupportedMethod)
    }
}

/// First step of resolving an identifier or handle: a valid DID goes
/// straight to a document fetch (by method); anything else is treated as a
/// handle and sent to the directory.
pub fn start_resolution(id: &str, resolver_app_view: &str) -> (r: Result<
    ResolveNext,
    ResolutionError,
>)
    ensures
        !spec_valid_did(id@) ==> (r matches Ok(ResolveNext::LookupHandle(u)) && u@
            == resolver_app_view@ + "/xrpc/com.atproto.identity.resolveHandle?handle="@ + id@),
        spec_valid_did(id@) && spec_did_method(id@) == "plc"@ ==> (r matches Ok(
            ResolveNext::FetchDocument(d, u),
        ) && d@ == id@ && u@ == "https://plc.directory/"@ + id@),
        spec_valid_did(id@) && spec_did_method(id@) == "web"@ ==> (r matches Ok(
            ResolveNext::FetchDocument(d, u),
        ) && d@ == id@ && u@ == "https://"@ + spec_after_last_colon(id@)
            + "/.well-known/did.json"@),
        spec_valid_did(id@) && spec_did_method(id@) != "plc"@ && spec_did_method(id@) != "web"@
            ==> (r matches Err(e) && e is UnsupportedMethod),
{
    proof {
        reveal_strlit("plc");
        reveal_strlit("web");
        assert("plc"@[0] == 'p' && "web"@[0] == 'w');
    }
    match Did::new(id.to_owned()) {
        Ok(did) => match doc_url_for_did(&did) {
            Ok(u) => Ok(ResolveNext::FetchDocument(did, u)),
            Err(e) => Err(e),
        },
        Err(_) => Ok(ResolveNext::LookupHandle(resolve_handle_url(resolver_app_view, id))),
    }
}

/// Second step after a handle lookup: the directory's reply must carry a
/// valid identifier.
pub fn handle_resolution_reply(reply: &ResolvedHandle) -> (r: Result<Did, ResolutionError>)
    ensures
        spec_valid_did(reply.did@) ==> (r matches Ok(d) && d@ == reply.did@),
        !spec_valid_did(reply.did@) ==> (r matches Err(e) && e is InvalidDid),
{
    match Did::new(reply.did.clone()) {
        Ok(d) => Ok(d),
        Err(_) => Err(ResolutionError::InvalidDid),
    }
}

/// Final step: project the fetched identity document. Succeeds exactly when
/// the document declares a data-hosting endpoint.
pub fn resolve_from_document(identity: &str, did: Did, doc: DidDocument) -> (r: Result<
    ResolvedIdentity,
    ResolutionError,
>)
    ensures
        spec_find_service(doc.service@, "#atproto_pds"@, "AtprotoPersonalDataServer"@) matches Some(
            svc,
        ) ==> (r matches Ok(ri) && ri.did@ == did@ && ri.doc == doc && ri.identity@ == identity@
            && ri.pds@ == svc.service_endpoint@),
        spec_find_service(doc.service@, "#atproto_pds"@, "AtprotoPersonalDataServer"@) is None ==> (
        r matches Err(e) && e is NoServiceEndpoint),
{
    match get_pds_endpoint(&doc) {
        Some(svc) => Ok(ResolvedIdentity {
            did,
            doc,
            identity: identity.to_owned(),
            pds: svc.service_endpoint,
        }),
        None => Err(ResolutionError::NoServiceEndpoint),
    }
}

} // verus!

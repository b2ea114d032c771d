use vstd::prelude::*;
use vstd::string::*;
use crate::text::str_eq;

verus! {

/// One verification method declared by an identity document. Carried for
/// completeness; the pipeline does not read it.
pub struct DidDocumentVerificationMethod {
    pub id: String,
    pub _type: String,
    pub controller: String,
    pub public_key_multibase: String,
}

/// One service entry of an identity document: an id, a type, and the URL
/// of the service.
pub struct DidDocumentService {
    pub id: String,
    pub _type: String,
    pub service_endpoint: String,
}

/// The resolved representation of a decentralized identifier: its aliases,
/// verification methods and declared service endpoints.
pub struct DidDocument {
    pub _context: Vec<String>,
    pub id: String,
    pub also_known_as: Vec<String>,
    pub verification_method: Vec<DidDocumentVerificationMethod>,
    pub service: Vec<DidDocumentService>,
}

impl Clone for DidDocumentService {
    /// A clone carries the same three fields.
    fn clone(&self) -> (r: Self)
        ensures
            r == *self,
    {
        DidDocumentService {
            id: self.id.clone(),
            _type: self._type.clone(),
            service_endpoint: self.service_endpoint.clone(),
        }
    }
}

/// Whether a service entry carries exactly this id and type.
pub open spec fn svc_matches(svc: DidDocumentService, id: Seq<char>, ty: Seq<char>) -> bool {
    svc.id@ == id && svc._type@ == ty
}

/// The first service entry carrying this id and type, if any.
pub open spec fn spec_find_service(
    services: Seq<DidDocumentService>,
    id: Seq<char>,
    ty: Seq<char>,
) -> Option<DidDocumentService>
    decreases services.len(),
{
    if services.len() == 0 {
        None
    } else if svc_matches(services[0], id, ty) {
        Some(services[0])
    } else {
        spec_find_service(services.drop_first(), id, ty)
    }
}

/// `spec_find_service` returns the entry at the first matching position,
/// and `None` exactly when no position matches.
pub proof fn lemma_find_service_at(
    services: Seq<DidDocumentService>,
    id: Seq<char>,
    ty: Seq<char>,
    i: int,
)
    requires
        0 <= i <= services.len(),
        forall|j: int| 0 <= j < i ==> !svc_matches(#[trigger] services[j], id, ty),
        i < services.len() ==> svc_matches(services[i], id, ty),
    ensures
        spec_find_service(services, id, ty) == (if i < services.len() {
            Some(services[i])
        } else {
            None::<DidDocumentService>
        }),
    decreases i,
{
    if i > 0 {
        lemma_find_service_at(services.drop_first(), id, ty, i - 1);
        assert(forall|j: int|
            0 <= j < i - 1 ==> services.drop_first()[j] == services[j + 1]);
    }
}

/// Looks up the first service entry with this id and type; the pipeline
/// uses it to locate the data-hosting endpoint of an identity.
pub fn get_service_endpoint(doc: &DidDocument, svc_id: &str, svc_type: &str) -> (r: Option<
    DidDocumentService,
>)
    ensures
        r == spec_find_service(doc.service@, svc_id@, svc_type@),
{
    let mut idx: usize = 0;
    while idx < doc.service.len()
        invariant
            0 <= idx <= doc.service@.len(),
            forall|j: int|
                0 <= j < idx ==> !svc_matches(#[trigger] doc.service@[j], svc_id@, svc_type@),
        decreases doc.service@.len() - idx,
    {
        let svc = &doc.service[idx];
        if str_eq(svc.id.as_str(), svc_id) && str_eq(svc._type.as_str(), svc_type) {
            proof {
                lemma_find_service_at(doc.service@, svc_id@, svc_type@, idx as int);
            }
            return Some(svc.clone());
        }
        idx = idx + 1;
    }
    proof {
        lemma_find_service_at(doc.service@, svc_id@, svc_type@, doc.service@.len() as int);
    }
    None
}

/// Looks up the data-hosting ("personal data server") endpoint: the service
/// entry with the well-known id `#atproto_pds` and type
/// `AtprotoPersonalDataServer`.
pub fn get_pds_endpoint(doc: &DidDocument) -> (r: Option<DidDocumentService>)
    ensures
        r == spec_find_service(doc.service@, "#atproto_pds"@, "AtprotoPersonalDataServer"@),
{
    get_service_endpoint(doc, "#atproto_pds", "AtprotoPersonalDataServer")
}

/// `s` with a leading `at://` scheme marker removed, when one is present.
pub open spec fn spec_strip_at_scheme(s: Seq<char>) -> Seq<char> {
    if s.len() >= 5 && s.subrange(0, 5) == "at://"@ {
        s.subrange(5, s.len() as int)
    } else {
        s
    }
}

/// Removes a leading `at://` scheme marker, if present.
pub fn strip_at_scheme(h: &str) -> (r: String)
    ensures
        r@ == spec_strip_at_scheme(h@),
{
    proof {
        reveal_strlit("at://");
    }
    let n = h.unicode_len();
    if n >= 5 && h.get_char(0) == 'a' && h.get_char(1) == 't' && h.get_char(2) == ':'
        && h.get_char(3) == '/' && h.get_char(4) == '/' {
        proof {
            assert(h@.subrange(0, 5) =~= "at://"@);
        }
        let t = h.substring_char(5, n);
        t.to_owned()
    } else {
        proof {
            if h@.len() >= 5 && h@.subrange(0, 5) == "at://"@ {
                assert(h@[0] == 'a' && h@[1] == 't' && h@[2] == ':' && h@[3] == '/'
                    && h@[4] == '/') by {
                    assert(forall|j: int| 0 <= j < 5 ==> h@.subrange(0, 5)[j] == h@[j]);
                }
            }
        }
        h.to_owned()
    }
}

/// The canonical handle an identity document declares: its first
/// "also known as" alias, with a leading `at://` marker removed. `None`
/// when the document declares no alias at all.
pub fn canonical_handle(doc: &DidDocument) -> (r: Option<String>)
    ensures
        doc.also_known_as@.len() == 0 ==> r is None,
        doc.also_known_as@.len() > 0 ==> (r matches Some(h) && h@ == spec_strip_at_scheme(
            doc.also_known_as@[0]@,
        )),
{
    if doc.also_known_as.len() == 0 {
        None
    } else {
        Some(strip_at_scheme(doc.also_known_as[0].as_str()))
    }
}

} // verus!

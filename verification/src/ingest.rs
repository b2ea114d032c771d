use vstd::prelude::*;
use vstd::map::Map;
use crate::did::{Did, spec_valid_did};
use crate::doc::{canonical_handle, spec_strip_at_scheme};
use crate::event::{Event, Operation};
use crate::record::{ProfileRecord, ProfileRecordView, decode_profile_record, spec_decode_profile};
use crate::resolve::{ResolvedIdentity, ResolutionError};
use crate::store::{ProfileRow, ProfileRowView, ProfileStore};

verus! {

/// Why the profile handler left an event without a write. Not an error:
/// the pipeline goes on.
#[derive(Clone, Copy, PartialEq, Eq, Structural, Debug)]
pub enum SkipReason {
    /// Deletion propagation is a deliberate stub: noted and skipped.
    Delete,
    /// A create or update without a payload is a soft deletion signal.
    NoRecord,
}

/// Why the profile handler failed an event. Terminal for that event only;
/// the pipeline advances past it.
#[derive(Debug)]
pub enum IngestError {
    /// The payload did not decode into the profile schema.
    DecodeFailed,
    /// The author identifier is not a valid decentralized identifier.
    InvalidDid,
    /// Identity resolution failed; carries the resolver's error.
    Resolution(ResolutionError),
    /// The resolved identity document declares no alias to take the
    /// canonical handle from.
    NoHandle,
    /// The caller supplied no resolution outcome for a write that needs one.
    Unresolved,
}

/// What the profile handler decided to do with an event.
pub enum IngestPlan {
    /// Nothing to write.
    Skip(SkipReason),
    /// Resolve this author, then upsert this record.
    Upsert(Did, ProfileRecord),
}

/// The row an upsert writes: the author's identifier, the resolved handle,
/// the decoded record fields, the record's creation time (or the resolution
/// time when absent), and the resolution time as indexing time.
pub open spec fn spec_built_row(
    did: Seq<char>,
    rec: ProfileRecordView,
    handle: Seq<char>,
    now: Seq<char>,
) -> ProfileRowView {
    ProfileRowView {
        did: did,
        handle: handle,
        display_name: rec.display_name,
        description: rec.description,
        created_at: match rec.created_at {
            Some(c) => c,
            None => now,
        },
        indexed_at: now,
    }
}

/// What handling one profile event does to the stored rows, and what it
/// returns: the whole contract of `ProfileIngestor::ingest` as one
/// function. A delete or a missing payload is skipped without error; an
/// undecodable payload, an invalid author identifier, a missing or failed
/// resolution, and an aliasless identity document each fail the event and
/// write nothing; otherwise the built row is upserted under the author's
/// identifier.
pub open spec fn spec_ingest(
    event: Event,
    resolution: Option<Result<ResolvedIdentity, ResolutionError>>,
    now: Seq<char>,
    m: Map<Seq<char>, ProfileRowView>,
) -> (Map<Seq<char>, ProfileRowView>, Result<(), IngestError>) {
    if event.operation is Delete {
        (m, Ok(()))
    } else {
        match event.record {
            None => (m, Ok(())),
            Some(raw) => match spec_decode_profile(raw@) {
                None => (m, Err(IngestError::DecodeFailed)),
                Some(rec) => if !spec_valid_did(event.did@) {
                    (m, Err(IngestError::InvalidDid))
                } else {
                    match resolution {
                        None => (m, Err(IngestError::Unresolved)),
                        Some(Err(e)) => (m, Err(IngestError::Resolution(e))),
                        Some(Ok(ident)) => if ident.doc.also_known_as@.len() == 0 {
                            (m, Err(IngestError::NoHandle))
                        } else {
                            (
                                m.insert(
                                    event.did@,
                                    spec_built_row(
                                        event.did@,
                                        rec,
                                        spec_strip_at_scheme(ident.doc.also_known_as@[0]@),
                                        now,
                                    ),
                                ),
                                Ok(()),
                            )
                        },
                    }
                },
            },
        }
    }
}

/// Builds the row an upsert writes, from the decoded record and the
/// resolved handle; `now` is the resolution time.
pub fn build_row(did: &Did, record: &ProfileRecord, handle: &str, now: &str) -> (r: ProfileRow)
    ensures
        r@ == spec_built_row(did@, record@, handle@, now@),
{
    ProfileRow {
        did: did.as_str().to_owned(),
        handle: handle.to_owned(),
        display_name: record.display_name.clone(),
        description: match &record.description {
            Some(d) => Some(d.clone()),
            None => None,
        },
        created_at: match &record.created_at {
            Some(c) => c.clone(),
            None => now.to_owned(),
        },
        indexed_at: now.to_owned(),
    }
}

/// The one concrete handler: validates the commit shape, decodes the
/// payload, asks for the author's resolved identity, and upserts the row.
pub struct ProfileIngestor {}

impl ProfileIngestor {
    /// Decides what to do with an event, before any resolution: skip a
    /// delete or a missing payload, fail a payload that does not decode or
    /// an invalid author identifier, and otherwise hand back the upsert
    /// plan.
    pub fn prepare(&self, event: &Event) -> (r: Result<IngestPlan, IngestError>)
        ensures
            event.operation is Delete ==> r matches Ok(IngestPlan::Skip(SkipReason::Delete)),
            !(event.operation is Delete) && event.record is None ==> r matches Ok(
                IngestPlan::Skip(SkipReason::NoRecord),
            ),
            !(event.operation is Delete) && event.record is Some && spec_decode_profile(
                event.record->Some_0@,
            ) is None ==> r matches Err(IngestError::DecodeFailed),
            !(event.operation is Delete) && event.record is Some && spec_decode_profile(
                event.record->Some_0@,
            ) is Some && !spec_valid_did(event.did@) ==> r matches Err(IngestError::InvalidDid),
            !(event.operation is Delete) && event.record is Some && spec_decode_profile(
                event.record->Some_0@,
            ) is Some && spec_valid_did(event.did@) ==> r is Ok && r->Ok_0 is Upsert
                && r->Ok_0->Upsert_0@ == event.did@ && r->Ok_0->Upsert_1@ == spec_decode_profile(
                event.record->Some_0@,
            )->Some_0,
    {
        match event.operation {
            Operation::Delete => Ok(IngestPlan::Skip(SkipReason::Delete)),
            _ => match &event.record {
                None => Ok(IngestPlan::Skip(SkipReason::NoRecord)),
                Some(raw) => match decode_profile_record(raw.as_str()) {
                    None => Err(IngestError::DecodeFailed),
                    Some(rec) => match Did::new(event.did.clone()) {
                        Err(_) => Err(IngestError::InvalidDid),
                        Ok(d) => Ok(IngestPlan::Upsert(d, rec)),
                    },
                },
            },
        }
    }

    /// Applies a resolution outcome for a planned upsert: a resolver
    /// failure or an aliasless document fails the event and writes nothing;
    /// otherwise the built row is upserted under the author's identifier.
    pub fn insert_profile(
        &self,
        store: &mut ProfileStore,
        did: &Did,
        record: &ProfileRecord,
        resolution: Result<ResolvedIdentity, ResolutionError>,
        now: &str,
    ) -> (r: Result<(), IngestError>)
        ensures
            resolution is Err ==> r == Err::<(), IngestError>(
                IngestError::Resolution(resolution->Err_0),
            ) && final(store)@ == old(store)@,
            resolution is Ok && resolution->Ok_0.doc.also_known_as@.len() == 0 ==> r == Err::<
                (),
                IngestError,
            >(IngestError::NoHandle) && final(store)@ == old(store)@,
            resolution is Ok && resolution->Ok_0.doc.also_known_as@.len() > 0 ==> r is Ok
                && final(store)@ == old(store)@.insert(
                did@,
                spec_built_row(
                    did@,
                    record@,
                    spec_strip_at_scheme(resolution->Ok_0.doc.also_known_as@[0]@),
                    now@,
                ),
            ),
    {
        match resolution {
            Err(e) => Err(IngestError::Resolution(e)),
            Ok(ident) => match canonical_handle(&ident.doc) {
                None => Err(IngestError::NoHandle),
                Some(handle) => {
                    let row = build_row(did, record, handle.as_str(), now);
                    store.upsert(row);
                    Ok(())
                },
            },
        }
    }

    /// Handles one event of the profile collection end to end, given the
    /// resolution outcome the runtime obtained for its author (or `None`
    /// when it obtained none). The store afterwards and the result are
    /// exactly what `spec_ingest` says.
    pub fn ingest(
        &self,
        store: &mut ProfileStore,
        event: &Event,
        resolution: Option<Result<ResolvedIdentity, ResolutionError>>,
        now: &str,
    ) -> (r: Result<(), IngestError>)
        ensures
            final(store)@ == spec_ingest(*event, resolution, now@, old(store)@).0,
            r == spec_ingest(*event, resolution, now@, old(store)@).1,
    {
        let r = match self.prepare(event) {
            Ok(IngestPlan::Skip(_)) => Ok(()),
            Err(e) => Err(e),
            Ok(IngestPlan::Upsert(did, rec)) => match resolution {
                None => Err(IngestError::Unresolved),
                Some(res) => self.insert_profile(store, &did, &rec, res, now),
            },
        };
        proof {
            let s = spec_ingest(*event, resolution, now@, old(store)@).1;
            if r is Ok {
                assert(s is Ok && r->Ok_0 == s->Ok_0);
            } else {
                assert(s is Err && r->Err_0 == s->Err_0);
            }
        }
        r
    }
}

} // verus!

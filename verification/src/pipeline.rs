use vstd::prelude::*;
use vstd::map::Map;
use crate::cursor::{CursorStore, advanced_cursor};
use crate::event::Event;
use crate::ingest::{IngestError, ProfileIngestor, spec_ingest};
use crate::resolve::{ResolvedIdentity, ResolutionError};
use crate::store::{ProfileRowView, ProfileStore};
use crate::text::str_eq;

verus! {

/// The record collection the profile ingestor is registered under.
pub const PROFILE_COLLECTION: &'static str = "moe.hayden.blogi.actor.profile";

/// The handlers this pipeline knows. One concrete handler exists.
#[derive(Clone, Copy, PartialEq, Eq, Structural, Debug)]
pub enum HandlerKind {
    Profile,
}

/// One registration: a collection identifier and the handler for it.
pub struct RegistryEntry {
    pub collection: String,
    pub handler: HandlerKind,
}

/// The first registered handler for this collection, scanning in
/// registration order.
pub open spec fn find_handler(entries: Seq<RegistryEntry>, coll: Seq<char>) -> Option<HandlerKind>
    decreases entries.len(),
{
    if entries.len() == 0 {
        None
    } else if entries[0].collection@ == coll {
        Some(entries[0].handler)
    } else {
        find_handler(entries.drop_first(), coll)
    }
}

/// Registering one more collection changes no lookup that already found a
/// handler, and serves the new collection afterwards.
proof fn lemma_find_handler_push(entries: Seq<RegistryEntry>, e: RegistryEntry, coll: Seq<char>)
    ensures
        find_handler(entries.push(e), coll) == (if find_handler(entries, coll) is Some {
            find_handler(entries, coll)
        } else if e.collection@ == coll {
            Some(e.handler)
        } else {
            None::<HandlerKind>
        }),
    decreases entries.len(),
{
    let pushed = entries.push(e);
    if entries.len() == 0 {
        assert(pushed[0] == e);
        assert(pushed.drop_first() =~= Seq::<RegistryEntry>::empty());
    } else {
        assert(pushed[0] == entries[0]);
        assert(pushed.drop_first() =~= entries.drop_first().push(e));
        lemma_find_handler_push(entries.drop_first(), e, coll);
    }
}

/// `find_handler` finds the entry at the first matching position, and
/// `None` exactly when no position matches.
proof fn lemma_find_handler_at(entries: Seq<RegistryEntry>, coll: Seq<char>, i: int)
    requires
        0 <= i <= entries.len(),
        forall|j: int| 0 <= j < i ==> (#[trigger] entries[j]).collection@ != coll,
        i < entries.len() ==> entries[i].collection@ == coll,
    ensures
        find_handler(entries, coll) == (if i < entries.len() {
            Some(entries[i].handler)
        } else {
            None::<HandlerKind>
        }),
    decreases i,
{
    if i > 0 {
        lemma_find_handler_at(entries.drop_first(), coll, i - 1);
        assert(forall|j: int| 0 <= j < i - 1 ==> entries.drop_first()[j] == entries[j + 1]);
    }
}

/// Maps a record collection to its registered handler. Built once at
/// startup, read-only afterwards.
pub struct Registry {
    entries: Vec<RegistryEntry>,
}

impl Registry {
    /// The handler registered for this collection, if any.
    pub closed spec fn spec_handler_for(&self, coll: Seq<char>) -> Option<HandlerKind> {
        find_handler(self.entries@, coll)
    }

    /// An empty registry: no collection is served.
    pub fn new() -> (r: Registry)
        ensures
            forall|c: Seq<char>| r.spec_handler_for(c) is None,
    {
        Registry { entries: Vec::new() }
    }

    /// Registers a handler for one more collection. Registrations already
    /// made keep priority for their collections.
    pub fn register(&mut self, collection: String, handler: HandlerKind)
        ensures
            forall|c: Seq<char>| final(self).spec_handler_for(c) == (if old(
                self,
            ).spec_handler_for(c) is Some {
                old(self).spec_handler_for(c)
            } else if c == collection@ {
                Some(handler)
            } else {
                None::<HandlerKind>
            }),
    {
        let ghost entry_view = collection@;
        let entry = RegistryEntry { collection, handler };
        let ghost orig = self.entries@;
        let ghost gentry = entry;
        self.entries.push(entry);
        proof {
            assert forall|c: Seq<char>| #[trigger] find_handler(orig.push(gentry), c) == (
            if find_handler(orig, c) is Some {
                find_handler(orig, c)
            } else if c == entry_view {
                Some(handler)
            } else {
                None::<HandlerKind>
            }) by {
                lemma_find_handler_push(orig, gentry, c);
            }
        }
    }

    /// Looks a collection up in the registration table.
    pub fn lookup(&self, collection: &str) -> (r: Option<HandlerKind>)
        ensures
            r == self.spec_handler_for(collection@),
    {
        let n = self.entries.len();
        let mut i: usize = 0;
        while i < n
            invariant
                0 <= i <= n,
                n == self.entries@.len(),
                forall|j: int|
                    0 <= j < i ==> (#[trigger] self.entries@[j]).collection@ != collection@,
            decreases n - i,
        {
            if str_eq(self.entries[i].collection.as_str(), collection) {
                proof {
                    lemma_find_handler_at(self.entries@, collection@, i as int);
                }
                return Some(self.entries[i].handler);
            }
            i = i + 1;
        }
        proof {
            lemma_find_handler_at(self.entries@, collection@, n as int);
        }
        None
    }
}

/// The collections the stream connector subscribes to.
pub fn wanted_collections() -> (r: Vec<String>)
    ensures
        r@.len() == 1,
        r@[0]@ == PROFILE_COLLECTION@,
{
    let mut v: Vec<String> = Vec::new();
    v.push(PROFILE_COLLECTION.to_owned());
    v
}

/// The registry the pipeline starts with: the profile ingestor under its
/// collection, nothing else.
pub fn default_registry() -> (r: Registry)
    ensures
        r.spec_handler_for(PROFILE_COLLECTION@) == Some(HandlerKind::Profile),
        forall|c: Seq<char>| c != PROFILE_COLLECTION@ ==> r.spec_handler_for(c) is None,
{
    let mut r = Registry::new();
    r.register(PROFILE_COLLECTION.to_owned(), HandlerKind::Profile);
    r
}

/// What dispatching one event produced.
pub enum ProcessOutcome {
    /// No handler is registered for the event's collection: the event is
    /// dropped on purpose.
    NoHandler,
    /// The registered handler ran and returned this.
    Handled(Result<(), IngestError>),
}

/// The dispatching core of the ingester: the registration table, the one
/// concrete handler, the cursor, and the (model) datastore the handler
/// writes to.
pub struct Pipeline {
    pub registry: Registry,
    pub ingestor: ProfileIngestor,
    pub cursor: CursorStore,
    pub store: ProfileStore,
}

impl Pipeline {
    /// A fresh pipeline: the default registry, no cursor, an empty store.
    pub fn new() -> (p: Pipeline)
        ensures
            p.registry.spec_handler_for(PROFILE_COLLECTION@) == Some(HandlerKind::Profile),
            forall|c: Seq<char>|
                c != PROFILE_COLLECTION@ ==> p.registry.spec_handler_for(c) is None,
            p.cursor.spec_get() is None,
            p.store@ == Map::<Seq<char>, ProfileRowView>::empty(),
    {
        Pipeline {
            registry: default_registry(),
            ingestor: ProfileIngestor {},
            cursor: CursorStore::new(),
            store: ProfileStore::new(),
        }
    }

    /// Dispatches one event and then advances the cursor past it. The
    /// cursor advances whatever the dispatch produced — an unregistered
    /// collection, a skip, a failure, or a write — so a poison event is
    /// never redelivered forever; only a registered handler can change the
    /// store, and only as `spec_ingest` says.
    pub fn process_event(
        &mut self,
        event: &Event,
        resolution: Option<Result<ResolvedIdentity, ResolutionError>>,
        now: &str,
    ) -> (r: ProcessOutcome)
        ensures
            final(self).registry == old(self).registry,
            final(self).cursor.spec_get() == advanced_cursor(
                old(self).cursor.spec_get(),
                event.seq,
            ),
            old(self).registry.spec_handler_for(event.collection@) is None ==> r is NoHandler
                && final(self).store@ == old(self).store@,
            old(self).registry.spec_handler_for(event.collection@) is Some ==> r
                == ProcessOutcome::Handled(
                spec_ingest(*event, resolution, now@, old(self).store@).1,
            ) && final(self).store@ == spec_ingest(*event, resolution, now@, old(self).store@).0,
    {
        let outcome = match self.registry.lookup(event.collection.as_str()) {
            None => ProcessOutcome::NoHandler,
            Some(HandlerKind::Profile) => ProcessOutcome::Handled(
                self.ingestor.ingest(&mut self.store, event, resolution, now),
            ),
        };
        self.cursor.advance(event.seq);
        outcome
    }
}

/// Redelivery changes nothing: processing the same event a second time,
/// with the same resolution outcome and resolution time, leaves the cursor
/// and the stored rows exactly as the first processing left them, and
/// produces the same result.
pub proof fn lemma_replay_idempotent(
    event: Event,
    resolution: Option<Result<ResolvedIdentity, ResolutionError>>,
    now: Seq<char>,
    cursor: Option<u64>,
    m: Map<Seq<char>, ProfileRowView>,
)
    ensures
        advanced_cursor(advanced_cursor(cursor, event.seq), event.seq) == advanced_cursor(
            cursor,
            event.seq,
        ),
        spec_ingest(event, resolution, now, spec_ingest(event, resolution, now, m).0).0
            == spec_ingest(event, resolution, now, m).0,
        spec_ingest(event, resolution, now, spec_ingest(event, resolution, now, m).0).1
            == spec_ingest(event, resolution, now, m).1,
{
    let m1 = spec_ingest(event, resolution, now, m).0;
    let m2 = spec_ingest(event, resolution, now, m1).0;
    assert(m2 =~= m1);
}

} // verus!

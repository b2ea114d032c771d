use vstd::prelude::*;
use vstd::map::*;
use vstd::seq_lib::*;
use vstd::string::*;
use crate::did::{Did, spec_valid_did};
use crate::errors::BlogiError;
use crate::handle::{valid_handle, spec_valid_handle};
use crate::text::str_eq;

verus! {

/// One stored profile row, keyed by the author's decentralized identifier.
/// `indexed_at` is the resolution time of the latest successful upsert;
/// timestamps are datetime literals carried as text.
pub struct ProfileRow {
    pub did: String,
    pub handle: String,
    pub display_name: String,
    pub description: Option<String>,
    pub created_at: String,
    pub indexed_at: String,
}

/// Mathematical image of a `ProfileRow`.
pub ghost struct ProfileRowView {
    pub did: Seq<char>,
    pub handle: Seq<char>,
    pub display_name: Seq<char>,
    pub description: Option<Seq<char>>,
    pub created_at: Seq<char>,
    pub indexed_at: Seq<char>,
}

impl View for ProfileRow {
    type V = ProfileRowView;

    open spec fn view(&self) -> ProfileRowView {
        ProfileRowView {
            did: self.did@,
            handle: self.handle@,
            display_name: self.display_name@,
            description: match self.description {
                Some(d) => Some(d@),
                None => None,
            },
            created_at: self.created_at@,
            indexed_at: self.indexed_at@,
        }
    }
}

impl Clone for ProfileRow {
    /// A clone carries the same fields.
    fn clone(&self) -> (r: Self)
        ensures
            r == *self,
    {
        ProfileRow {
            did: self.did.clone(),
            handle: self.handle.clone(),
            display_name: self.display_name.clone(),
            description: match &self.description {
                Some(d) => Some(d.clone()),
                None => None,
            },
            created_at: self.created_at.clone(),
            indexed_at: self.indexed_at.clone(),
        }
    }
}

/// The first row carrying this identifier, scanning in storage order.
pub open spec fn find_row(rows: Seq<ProfileRow>, did: Seq<char>) -> Option<ProfileRow>
    decreases rows.len(),
{
    if rows.len() == 0 {
        None
    } else if rows[0].did@ == did {
        Some(rows[0])
    } else {
        find_row(rows.drop_first(), did)
    }
}

/// Replacing the first row that carries `row.did` leaves every other key's
/// lookup unchanged and makes `row` the row found under `row.did`.
proof fn lemma_find_row_update(rows: Seq<ProfileRow>, i: int, row: ProfileRow, d: Seq<char>)
    requires
        0 <= i < rows.len(),
        rows[i].did@ == row.did@,
        forall|j: int| 0 <= j < i ==> (#[trigger] rows[j]).did@ != row.did@,
    ensures
        find_row(rows.update(i, row), d) == (if d == row.did@ {
            Some(row)
        } else {
            find_row(rows, d)
        }),
    decreases rows.len(),
{
    let updated = rows.update(i, row);
    if i == 0 {
        assert(updated.drop_first() =~= rows.drop_first());
    } else {
        assert(updated[0] == rows[0]);
        assert(updated.drop_first() =~= rows.drop_first().update(i - 1, row));
        lemma_find_row_update(rows.drop_first(), i - 1, row, d);
    }
}

/// Appending a row whose identifier no stored row carries leaves every
/// other key's lookup unchanged and makes `row` the row found under its key.
proof fn lemma_find_row_push(rows: Seq<ProfileRow>, row: ProfileRow, d: Seq<char>)
    requires
        forall|j: int| 0 <= j < rows.len() ==> (#[trigger] rows[j]).did@ != row.did@,
    ensures
        find_row(rows.push(row), d) == (if d == row.did@ {
            Some(row)
        } else {
            find_row(rows, d)
        }),
    decreases rows.len(),
{
    let pushed = rows.push(row);
    if rows.len() == 0 {
        assert(pushed[0] == row);
        assert(pushed.drop_first() =~= Seq::<ProfileRow>::empty());
    } else {
        assert(pushed[0] == rows[0]);
        assert(pushed.drop_first() =~= rows.drop_first().push(row));
        lemma_find_row_push(rows.drop_first(), row, d);
    }
}

/// In-memory model of the datastore's profile table: the reference for the
/// pipeline's write contract. Viewed as a map from identifier to row.
pub struct ProfileStore {
    rows: Vec<ProfileRow>,
}

impl View for ProfileStore {
    type V = Map<Seq<char>, ProfileRowView>;

    closed spec fn view(&self) -> Map<Seq<char>, ProfileRowView> {
        Map::new(
            |d: Seq<char>| find_row(self.rows@, d) is Some,
            |d: Seq<char>| find_row(self.rows@, d)->Some_0@,
        )
    }
}

impl ProfileStore {
    /// An empty table.
    pub fn new() -> (s: ProfileStore)
        ensures
            s@ == Map::<Seq<char>, ProfileRowView>::empty(),
    {
        let s = ProfileStore { rows: Vec::new() };
        proof {
            assert(s@ =~= Map::<Seq<char>, ProfileRowView>::empty());
        }
        s
    }

    /// Insert-or-update keyed by the row's identifier: a first sight inserts
    /// the row, a conflict overwrites every field of the stored row. Safe to
    /// repeat with the same row.
    pub fn upsert(&mut self, row: ProfileRow)
        ensures
            final(self)@ == old(self)@.insert(row.did@, row@),
    {
        let ghost grow = row;
        let ghost orig = self.rows@;
        let n = self.rows.len();
        let mut i: usize = 0;
        while i < n
            invariant
                0 <= i <= n,
                n == self.rows@.len(),
                self.rows@ == orig,
                old(self).rows@ == orig,
                grow == row,
                forall|j: int| 0 <= j < i ==> (#[trigger] orig[j]).did@ != grow.did@,
            decreases n - i,
        {
            if str_eq(self.rows[i].did.as_str(), row.did.as_str()) {
                self.rows.remove(i);
                self.rows.insert(i, row);
                proof {
                    assert(self.rows@ =~= orig.update(i as int, grow));
                    assert_maps_equal!(self@, old(self)@.insert(grow.did@, grow@), d => {
                        lemma_find_row_update(orig, i as int, grow, d);
                    });
                }
                return;
            }
            i = i + 1;
        }
        self.rows.push(row);
        proof {
            assert_maps_equal!(self@, old(self)@.insert(grow.did@, grow@), d => {
                lemma_find_row_push(orig, grow, d);
            });
        }
    }

    /// The stored row under this identifier, if any.
    pub fn get_profile(&self, did: &str) -> (r: Option<ProfileRow>)
        ensures
            r matches Some(p) ==> self@.contains_key(did@) && self@[did@] == p@,
            r is None ==> !self@.contains_key(did@),
    {
        let n = self.rows.len();
        let mut i: usize = 0;
        while i < n
            invariant
                0 <= i <= n,
                n == self.rows@.len(),
                forall|j: int| 0 <= j < i ==> (#[trigger] self.rows@[j]).did@ != did@,
            decreases n - i,
        {
            if str_eq(self.rows[i].did.as_str(), did) {
                proof {
                    lemma_find_row_at(self.rows@, did@, i as int);
                }
                return Some(self.rows[i].clone());
            }
            i = i + 1;
        }
        proof {
            lemma_find_row_at(self.rows@, did@, n as int);
        }
        None
    }

    /// How many rows the table holds.
    pub fn len(&self) -> (r: usize)
        ensures
            r == self.spec_row_seq().len(),
    {
        self.rows.len()
    }

    /// The stored rows, in storage order; the reference for the read
    /// surface below.
    pub closed spec fn spec_row_seq(&self) -> Seq<ProfileRow> {
        self.rows@
    }

    /// The rows whose identifier or handle stands in `ids`, in storage
    /// order: the read surface behind the profile-listing endpoint.
    pub fn list_profiles(&self, ids: &Vec<String>) -> (r: Vec<ProfileRow>)
        ensures
            r@ == self.spec_row_seq().filter(
                |p: ProfileRow| row_matches_ids(p, ids.deep_view()),
            ),
    {
        let n = self.rows.len();
        let mut out: Vec<ProfileRow> = Vec::new();
        let mut i: usize = 0;
        proof {
            reveal(Seq::filter);
            assert(self.rows@.subrange(0, 0) =~= Seq::<ProfileRow>::empty());
        }
        while i < n
            invariant
                0 <= i <= n,
                n == self.rows@.len(),
                out@ == self.rows@.subrange(0, i as int).filter(
                    |p: ProfileRow| row_matches_ids(p, ids.deep_view()),
                ),
            decreases n - i,
        {
            let hit = contains_str(ids, self.rows[i].did.as_str()) || contains_str(
                ids,
                self.rows[i].handle.as_str(),
            );
            if hit {
                out.push(self.rows[i].clone());
            }
            proof {
                reveal(Seq::filter);
                let prefix = self.rows@.subrange(0, i + 1);
                assert(prefix.drop_last() =~= self.rows@.subrange(0, i as int));
                assert(prefix.last() == self.rows@[i as int]);
            }
            i = i + 1;
        }
        proof {
            assert(self.rows@.subrange(0, n as int) =~= self.rows@);
        }
        out
    }

    /// The first stored row whose identifier or handle equals `actor`:
    /// the read surface behind the single-profile endpoint.
    pub fn get_actor(&self, actor: &str) -> (r: Option<ProfileRow>)
        ensures
            r == find_actor(self.spec_row_seq(), actor@),
    {
        let n = self.rows.len();
        let mut i: usize = 0;
        while i < n
            invariant
                0 <= i <= n,
                n == self.rows@.len(),
                forall|j: int|
                    0 <= j < i ==> (#[trigger] self.rows@[j]).did@ != actor@
                        && self.rows@[j].handle@ != actor@,
            decreases n - i,
        {
            let hit = str_eq(self.rows[i].did.as_str(), actor) || str_eq(
                self.rows[i].handle.as_str(),
                actor,
            );
            if hit {
                proof {
                    lemma_find_actor_at(self.rows@, actor@, i as int);
                }
                return Some(self.rows[i].clone());
            }
            i = i + 1;
        }
        proof {
            lemma_find_actor_at(self.rows@, actor@, n as int);
        }
        None
    }
}

/// Whether a row's identifier or handle stands in `ids`.
pub open spec fn row_matches_ids(p: ProfileRow, ids: Seq<Seq<char>>) -> bool {
    ids.contains(p.did@) || ids.contains(p.handle@)
}

/// The first row whose identifier or handle equals `a`.
pub open spec fn find_actor(rows: Seq<ProfileRow>, a: Seq<char>) -> Option<ProfileRow>
    decreases rows.len(),
{
    if rows.len() == 0 {
        None
    } else if rows[0].did@ == a || rows[0].handle@ == a {
        Some(rows[0])
    } else {
        find_actor(rows.drop_first(), a)
    }
}

/// `find_actor` finds the row at the first matching position, and `None`
/// exactly when no position matches.
proof fn lemma_find_actor_at(rows: Seq<ProfileRow>, a: Seq<char>, i: int)
    requires
        0 <= i <= rows.len(),
        forall|j: int|
            0 <= j < i ==> (#[trigger] rows[j]).did@ != a && rows[j].handle@ != a,
        i < rows.len() ==> rows[i].did@ == a || rows[i].handle@ == a,
    ensures
        find_actor(rows, a) == (if i < rows.len() {
            Some(rows[i])
        } else {
            None::<ProfileRow>
        }),
    decreases i,
{
    if i > 0 {
        lemma_find_actor_at(rows.drop_first(), a, i - 1);
        assert(forall|j: int| 0 <= j < i - 1 ==> rows.drop_first()[j] == rows[j + 1]);
    }
}

/// Whether `s` stands among `ids`, character-wise.
fn contains_str(ids: &Vec<String>, s: &str) -> (r: bool)
    ensures
        r == ids.deep_view().contains(s@),
{
    let n = ids.len();
    let mut i: usize = 0;
    while i < n
        invariant
            0 <= i <= n,
            n == ids@.len(),
            forall|j: int| 0 <= j < i ==> ids.deep_view()[j] != s@,
        decreases n - i,
    {
        if str_eq(ids[i].as_str(), s) {
            proof {
                assert(ids.deep_view()[i as int] == s@);
            }
            return true;
        }
        i = i + 1;
    }
    proof {
        assert(forall|j: int| 0 <= j < ids.deep_view().len() ==> ids.deep_view()[j] != s@);
    }
    false
}

/// What the read endpoints serve for one stored row: the detailed profile
/// view. Avatars, banners and post counts are not stored, so they come
/// back empty.
pub struct ProfileViewDetailed {
    pub did: String,
    pub handle: String,
    pub display_name: Option<String>,
    pub description: Option<String>,
    pub avatar: Option<String>,
    pub banner: Option<String>,
    pub created_at: Option<String>,
    pub posts_count: u64,
    pub indexed_at: String,
}

/// Projects a stored row into the detailed view the read endpoints serve.
/// The stored identifier and handle are validated on the way out; a row
/// that fails either validation is an internal error.
pub fn profile_view_of_row(row: &ProfileRow) -> (r: Result<ProfileViewDetailed, BlogiError>)
    ensures
        spec_valid_did(row.did@) && spec_valid_handle(row.handle@) ==> ({
            let v = r->Ok_0;
            &&& r is Ok
            &&& v.did@ == row.did@
            &&& v.handle@ == row.handle@
            &&& v.display_name is Some && v.display_name->Some_0@ == row.display_name@
            &&& (match v.description {
                Some(d) => row.description is Some && d@ == row.description->Some_0@,
                None => row.description is None,
            })
            &&& v.avatar is None
            &&& v.banner is None
            &&& v.created_at is Some && v.created_at->Some_0@ == row.created_at@
            &&& v.posts_count == 0
            &&& v.indexed_at@ == row.indexed_at@
        }),
        !(spec_valid_did(row.did@) && spec_valid_handle(row.handle@)) ==> (r is Err
            && r->Err_0 is Internal),
    {
    if !valid_handle(row.handle.as_str()) {
        return Err(BlogiError::Internal(String::from_str("invalid handle")));
    }
    match Did::new(row.did.clone()) {
        Err(m) => Err(BlogiError::Internal(m)),
        Ok(_) => Ok(ProfileViewDetailed {
            did: row.did.clone(),
            handle: row.handle.clone(),
            display_name: Some(row.display_name.clone()),
            description: match &row.description {
                Some(d) => Some(d.clone()),
                None => None,
            },
            avatar: None,
            banner: None,
            created_at: Some(row.created_at.clone()),
            posts_count: 0,
            indexed_at: row.indexed_at.clone(),
        }),
    }
}

/// `find_row` returns the row at the first position carrying `did`, and
/// `None` exactly when no position carries it.
proof fn lemma_find_row_at(rows: Seq<ProfileRow>, did: Seq<char>, i: int)
    requires
        0 <= i <= rows.len(),
        forall|j: int| 0 <= j < i ==> (#[trigger] rows[j]).did@ != did,
        i < rows.len() ==> rows[i].did@ == did,
    ensures
        find_row(rows, did) == (if i < rows.len() {
            Some(rows[i])
        } else {
            None::<ProfileRow>
        }),
    decreases i,
{
    if i > 0 {
        lemma_find_row_at(rows.drop_first(), did, i - 1);
        assert(forall|j: int| 0 <= j < i - 1 ==> rows.drop_first()[j] == rows[j + 1]);
    }
}

/// Idempotence of the write contract: upserting the same row twice leaves
/// the table exactly as one upsert does.
pub proof fn lemma_upsert_idempotent(
    m: Map<Seq<char>, ProfileRowView>,
    did: Seq<char>,
    row: ProfileRowView,
)
    ensures
        m.insert(did, row).insert(did, row) == m.insert(did, row),
{
    assert(m.insert(did, row).insert(did, row) =~= m.insert(did, row));
}

} // verus!

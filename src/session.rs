use vstd::prelude::*;

use crate::error::AuthError;

verus! {

/// A persisted session: the upstream credential pair of one user.
#[derive(Debug, Clone)]
pub struct SessionRecord {
    /// Surrogate key, assigned by the store.
    pub id: i32,
    pub user_id: i32,
    pub access_token: String,
    pub refresh_token: String,
    /// Expiry of the upstream access token, in seconds since the epoch.
    pub expires_at: i64,
}

pub struct SessionView {
    pub id: i32,
    pub user_id: i32,
    pub access_token: Seq<char>,
    pub refresh_token: Seq<char>,
    pub expires_at: i64,
}

impl View for SessionRecord {
    type V = SessionView;

    open spec fn view(&self) -> SessionView {
        SessionView {
            id: self.id,
            user_id: self.user_id,
            access_token: self.access_token@,
            refresh_token: self.refresh_token@,
            expires_at: self.expires_at,
        }
    }
}

/// No two rows belong to the same user.
pub open spec fn unique_users(rows: Seq<SessionView>) -> bool {
    forall|i: int, j: int|
        0 <= i < rows.len() && 0 <= j < rows.len() && i != j ==> rows[i].user_id != rows[j].user_id
}

/// Some row belongs to user `u`.
pub open spec fn has_row(rows: Seq<SessionView>, u: i32) -> bool {
    exists|i: int| 0 <= i < rows.len() && rows[i].user_id == u
}

/// The rows, keyed by user.
pub open spec fn rows_by_user(rows: Seq<SessionView>) -> Map<i32, SessionView> {
    Map::new(
        |u: i32| has_row(rows, u),
        |u: i32| rows[choose|i: int| 0 <= i < rows.len() && rows[i].user_id == u],
    )
}

/// The record that an upsert of `m` leaves for its user: the fields of `m`,
/// under the id of the record it replaces, or under `fresh` where there was none.
pub open spec fn upserted(
    before: Map<i32, SessionView>,
    m: SessionView,
    fresh: i32,
) -> SessionView {
    SessionView {
        id: if before.contains_key(m.user_id) {
            before[m.user_id].id
        } else {
            fresh
        },
        ..m
    }
}

proof fn lemma_row_in_map(rows: Seq<SessionView>, i: int)
    requires
        unique_users(rows),
        0 <= i < rows.len(),
    ensures
        rows_by_user(rows).contains_key(rows[i].user_id),
        rows_by_user(rows)[rows[i].user_id] == rows[i],
{
    let u = rows[i].user_id;
    assert(has_row(rows, u));
    let j = choose|j: int| 0 <= j < rows.len() && rows[j].user_id == u;
    assert(j == i);
}

proof fn lemma_map_update(rows: Seq<SessionView>, i: int, v: SessionView)
    requires
        unique_users(rows),
        0 <= i < rows.len(),
        v.user_id == rows[i].user_id,
    ensures
        unique_users(rows.update(i, v)),
        rows_by_user(rows.update(i, v)) == rows_by_user(rows).insert(v.user_id, v),
{
    let rows2 = rows.update(i, v);
    let m1 = rows_by_user(rows);
    let m2 = rows_by_user(rows2);
    assert forall|k: i32| m2.contains_key(k) <==> m1.insert(v.user_id, v).contains_key(k) by {
        if has_row(rows, k) {
            let j = choose|j: int| 0 <= j < rows.len() && rows[j].user_id == k;
            assert(rows2[j].user_id == k);
        }
        if has_row(rows2, k) {
            let j = choose|j: int| 0 <= j < rows2.len() && rows2[j].user_id == k;
            assert(rows[j].user_id == k);
        }
    }
    assert forall|k: i32| #[trigger] m2.contains_key(k) implies m2[k] == m1.insert(
        v.user_id,
        v,
    )[k] by {
        let j = choose|j: int| 0 <= j < rows2.len() && rows2[j].user_id == k;
        lemma_row_in_map(rows2, j);
        if j != i {
            lemma_row_in_map(rows, j);
        }
    }
    assert(m2 =~= m1.insert(v.user_id, v));
}

proof fn lemma_map_push(rows: Seq<SessionView>, v: SessionView)
    requires
        unique_users(rows),
        !has_row(rows, v.user_id),
    ensures
        unique_users(rows.push(v)),
        rows_by_user(rows.push(v)) == rows_by_user(rows).insert(v.user_id, v),
{
    let rows2 = rows.push(v);
    let m1 = rows_by_user(rows);
    let m2 = rows_by_user(rows2);
    assert forall|i: int, j: int|
        0 <= i < rows2.len() && 0 <= j < rows2.len() && i != j implies rows2[i].user_id
        != rows2[j].user_id by {
        if i == rows.len() {
            assert(rows[j].user_id != v.user_id);
        }
        if j == rows.len() {
            assert(rows[i].user_id != v.user_id);
        }
    }
    assert forall|k: i32| m2.contains_key(k) <==> m1.insert(v.user_id, v).contains_key(k) by {
        if has_row(rows, k) {
            let j = choose|j: int| 0 <= j < rows.len() && rows[j].user_id == k;
            assert(rows2[j].user_id == k);
        }
        if has_row(rows2, k) && k != v.user_id {
            let j = choose|j: int| 0 <= j < rows2.len() && rows2[j].user_id == k;
            assert(rows[j].user_id == k);
        }
        if k == v.user_id {
            assert(rows2[rows.len() as int].user_id == k);
        }
    }
    assert forall|k: i32| #[trigger] m2.contains_key(k) implies m2[k] == m1.insert(
        v.user_id,
        v,
    )[k] by {
        let j = choose|j: int| 0 <= j < rows2.len() && rows2[j].user_id == k;
        lemma_row_in_map(rows2, j);
        if j < rows.len() {
            lemma_row_in_map(rows, j);
        }
    }
    assert(m2 =~= m1.insert(v.user_id, v));
}

/// The session store: at most one record per user, each with its own id.
pub struct SessionService {
    records: Vec<SessionRecord>,
    next_id: i32,
}

impl View for SessionService {
    type V = Map<i32, SessionView>;

    closed spec fn view(&self) -> Map<i32, SessionView> {
        rows_by_user(self.rows())
    }
}

impl SessionService {
    closed spec fn rows(&self) -> Seq<SessionView> {
        self.records@.map_values(|r: SessionRecord| r@)
    }

    /// The store's invariant: one record per user, and a next id above all
    /// that were given out.
    pub closed spec fn wf(&self) -> bool {
        &&& unique_users(self.rows())
        &&& 1 <= self.next_id
        &&& forall|i: int| 0 <= i < self.rows().len() ==> self.rows()[i].id < self.next_id
    }

    /// Each record is filed under its own user.
    pub proof fn lemma_keyed_by_user(&self)
        requires
            self.wf(),
        ensures
            forall|u: i32| #[trigger] self@.contains_key(u) ==> self@[u].user_id == u,
    {
        assert forall|u: i32| #[trigger] self@.contains_key(u) implies self@[u].user_id == u by {
            let rows = self.rows();
            let i = choose|i: int| 0 <= i < rows.len() && rows[i].user_id == u;
            lemma_row_in_map(rows, i);
        }
    }

    /// The id that the next new record gets.
    pub closed spec fn fresh_id(&self) -> i32 {
        self.next_id
    }

    /// Ids are handed out in increasing order; they run out at the largest `i32`.
    pub open spec fn ids_left(&self) -> bool {
        self.fresh_id() < i32::MAX
    }

    /// An empty store.
    pub fn new() -> (r: SessionService)
        ensures
            r.wf(),
            r@ == Map::<i32, SessionView>::empty(),
            r.fresh_id() == 1,
            r.ids_left(),
    {
        let r = SessionService { records: Vec::new(), next_id: 1 };
        assert(r@ =~= Map::<i32, SessionView>::empty());
        r
    }

    fn index_of(&self, user_id: i32) -> (r: Option<usize>)
        requires
            self.wf(),
        ensures
            match r {
                None => !has_row(self.rows(), user_id),
                Some(i) => i < self.rows().len() && self.rows()[i as int].user_id == user_id,
            },
    {
        let mut i: usize = 0;
        while i < self.records.len()
            invariant
                i <= self.records.len(),
                forall|j: int| 0 <= j < i ==> self.rows()[j].user_id != user_id,
            decreases self.records.len() - i,
        {
            if self.records[i].user_id == user_id {
                return Some(i);
            }
            i = i + 1;
        }
        None
    }

    /// The record of `user_id`, if there is one.
    pub fn find_session_by_user_id(&self, user_id: i32) -> (r: Option<SessionRecord>)
        requires
            self.wf(),
        ensures
            match r {
                None => !self@.contains_key(user_id),
                Some(rec) => self@.contains_key(user_id) && rec@ == self@[user_id] && rec.user_id
                    == user_id,
            },
    {
        match self.index_of(user_id) {
            None => None,
            Some(i) => {
                proof {
                    lemma_row_in_map(self.rows(), i as int);
                }
                Some(self.records[i].clone_record())
            },
        }
    }

    /// Inserts `model` as a new record under a fresh id. Fails, leaving the
    /// store as it was, where the user has a record already or ids have run out.
    pub fn create_session(&mut self, model: SessionRecord) -> (r: Result<SessionRecord, AuthError>)
        requires
            old(self).wf(),
        ensures
            final(self).wf(),
            match r {
                Ok(rec) => {
                    &&& !old(self)@.contains_key(model.user_id)
                    &&& old(self).ids_left()
                    &&& rec@ == (SessionView { id: old(self).fresh_id(), ..model@ })
                    &&& final(self)@ == old(self)@.insert(model.user_id, rec@)
                    &&& final(self).fresh_id() == old(self).fresh_id() + 1
                },
                Err(e) => {
                    &&& e == AuthError::StorageFailure
                    &&& (old(self)@.contains_key(model.user_id) || !old(self).ids_left())
                    &&& *final(self) == *old(self)
                },
            },
    {
        match self.index_of(model.user_id) {
            Some(i) => {
                proof {
                    lemma_row_in_map(self.rows(), i as int);
                }
                Err(AuthError::StorageFailure)
            },
            None => {
                if self.next_id == i32::MAX {
                    return Err(AuthError::StorageFailure);
                }
                let rec = SessionRecord { id: self.next_id, ..model };
                let out = rec.clone_record();
                proof {
                    lemma_map_push(self.rows(), rec@);
                }
                let ghost before = self.rows();
                self.records.push(rec);
                self.next_id = self.next_id + 1;
                assert(self.rows() =~= before.push(out@));
                Ok(out)
            },
        }
    }

    /// Overwrites the credentials and expiry of the user's record with those of
    /// `model`, keeping its id. Fails, leaving the store as it was, where the
    /// user has no record.
    pub fn update_session(&mut self, model: SessionRecord) -> (r: Result<SessionRecord, AuthError>)
        requires
            old(self).wf(),
        ensures
            final(self).wf(),
            final(self).fresh_id() == old(self).fresh_id(),
            match r {
                Ok(rec) => {
                    &&& old(self)@.contains_key(model.user_id)
                    &&& rec@ == upserted(old(self)@, model@, old(self).fresh_id())
                    &&& final(self)@ == old(self)@.insert(model.user_id, rec@)
                },
                Err(e) => {
                    &&& e == AuthError::SessionNotFound
                    &&& !old(self)@.contains_key(model.user_id)
                    &&& *final(self) == *old(self)
                },
            },
    {
        match self.index_of(model.user_id) {
            None => Err(AuthError::SessionNotFound),
            Some(i) => {
                proof {
                    lemma_row_in_map(self.rows(), i as int);
                }
                let id = self.records[i].id;
                let rec = SessionRecord { id, ..model };
                let out = rec.clone_record();
                proof {
                    lemma_map_update(self.rows(), i as int, rec@);
                }
                let ghost before = self.rows();
                self.records.set(i, rec);
                assert(self.rows() =~= before.update(i as int, out@));
                Ok(out)
            },
        }
    }

    /// Stores `model` as the user's record: updates it in place where one
    /// exists, inserts it under a fresh id otherwise. Fails, leaving the store
    /// as it was, only where a new record is needed and ids have run out.
    pub fn create_or_update_session(&mut self, model: SessionRecord) -> (r: Result<
        SessionRecord,
        AuthError,
    >)
        requires
            old(self).wf(),
        ensures
            final(self).wf(),
            match r {
                Ok(rec) => {
                    &&& rec@ == upserted(old(self)@, model@, old(self).fresh_id())
                    &&& final(self)@ == old(self)@.insert(model.user_id, rec@)
                    &&& (old(self)@.contains_key(model.user_id) || old(self).ids_left())
                    &&& final(self).fresh_id() == if old(self)@.contains_key(model.user_id) {
                        old(self).fresh_id()
                    } else {
                        (old(self).fresh_id() + 1) as i32
                    }
                },
                Err(e) => {
                    &&& e == AuthError::StorageFailure
                    &&& !old(self)@.contains_key(model.user_id)
                    &&& !old(self).ids_left()
                    &&& *final(self) == *old(self)
                },
            },
    {
        let copy = model.clone_record();
        match self.update_session(model) {
            Ok(rec) => Ok(rec),
            Err(_) => self.create_session(copy),
        }
    }
}

impl SessionRecord {
    /// A copy of the record.
    pub fn clone_record(&self) -> (r: SessionRecord)
        ensures
            r@ == self@,
    {
        SessionRecord {
            id: self.id,
            user_id: self.user_id,
            access_token: self.access_token.clone(),
            refresh_token: self.refresh_token.clone(),
            expires_at: self.expires_at,
        }
    }
}

/// Two upserts for the same user, one after the other, leave one record for
/// that user, holding the fields of the second, and touch no other user.
pub proof fn lemma_upsert_twice(
    before: Map<i32, SessionView>,
    first: SessionView,
    second: SessionView,
    fresh: i32,
    fresh2: i32,
)
    requires
        first.user_id == second.user_id,
    ensures
        ({
            let mid = before.insert(first.user_id, upserted(before, first, fresh));
            let after = mid.insert(second.user_id, upserted(mid, second, fresh2));
            &&& after.contains_key(second.user_id)
            &&& after[second.user_id] == (SessionView {
                id: upserted(before, first, fresh).id,
                ..second
            })
            &&& after.dom() == before.dom().insert(second.user_id)
            &&& forall|u: i32| u != second.user_id && before.contains_key(u) ==> after[u] == before[u]
        }),
{
    let mid = before.insert(first.user_id, upserted(before, first, fresh));
    let after = mid.insert(second.user_id, upserted(mid, second, fresh2));
    assert(after.dom() =~= before.dom().insert(second.user_id));
}

} // verus!

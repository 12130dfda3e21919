use vstd::prelude::*;
use crate::entities::GithubUser;
use crate::errors::StorageError;
use crate::text;

verus! {

/// The first stored row whose username equals `name` up to ASCII case,
/// in row order.
pub open spec fn find_by_username(users: Seq<GithubUser>, name: Seq<char>) -> Option<GithubUser>
    decreases users.len(),
{
    if users.len() == 0 {
        None
    } else if text::username_matches(users[0].username@, name) {
        Some(users[0])
    } else {
        find_by_username(users.drop_first(), name)
    }
}

/// The first stored row carrying `id`, in row order.
pub open spec fn find_by_id(users: Seq<GithubUser>, id: i32) -> Option<GithubUser>
    decreases users.len(),
{
    if users.len() == 0 {
        None
    } else if users[0].id == id {
        Some(users[0])
    } else {
        find_by_id(users.drop_first(), id)
    }
}

/// Whether some stored row carries `id`.
pub open spec fn has_id(users: Seq<GithubUser>, id: i32) -> bool {
    exists|i: int| 0 <= i < users.len() && users[i].id == id
}

/// No two stored rows carry the same id.
pub open spec fn unique_ids(users: Seq<GithubUser>) -> bool {
    forall|i: int, j: int| 0 <= i < j < users.len() ==> users[i].id != users[j].id
}

/// The store after a correct replace: every row carrying `entity.id`
/// (at most one, by uniqueness) is replaced wholesale; no other row moves.
pub open spec fn spec_update(users: Seq<GithubUser>, entity: GithubUser) -> Seq<GithubUser> {
    Seq::new(users.len(), |i: int| if users[i].id == entity.id { entity } else { users[i] })
}

/// The store after an upsert: replace in place when the id is present,
/// append a new row when it is not.
pub open spec fn spec_upsert(users: Seq<GithubUser>, entity: GithubUser) -> Seq<GithubUser> {
    if has_id(users, entity.id) {
        spec_update(users, entity)
    } else {
        users.push(entity)
    }
}

/// A username lookup cannot tell two spellings of the same name apart:
/// folding the case of the queried name never changes what is found.
pub proof fn lemma_lookup_case_insensitive(users: Seq<GithubUser>, a: Seq<char>, b: Seq<char>)
    requires
        text::username_matches(a, b),
    ensures
        find_by_username(users, a) == find_by_username(users, b),
    decreases users.len(),
{
    if users.len() > 0 {
        text::lemma_username_matches_equivalence(users[0].username@, a, b);
        text::lemma_username_matches_equivalence(users[0].username@, b, a);
        lemma_lookup_case_insensitive(users.drop_first(), a, b);
    }
}

/// A row is found by id exactly when one carries that id, and what is
/// found is one of the rows and carries it.
pub proof fn lemma_find_by_id_characterizes(users: Seq<GithubUser>, id: i32)
    ensures
        match find_by_id(users, id) {
            Some(u) => u.id == id && has_id(users, id) && exists|i: int|
                0 <= i < users.len() && users[i] == u,
            None => !has_id(users, id),
        },
    decreases users.len(),
{
    if users.len() > 0 && users[0].id != id {
        lemma_find_by_id_characterizes(users.drop_first(), id);
        if find_by_id(users.drop_first(), id) is None {
            assert forall|i: int| 0 <= i < users.len() implies users[i].id != id by {
                if i > 0 {
                    assert(users.drop_first()[i - 1] == users[i]);
                }
            }
        }
    }
}

/// An upsert into a store with unique ids leaves exactly one row carrying
/// the upserted id, that row holds the upserted values wholesale, and an
/// id lookup now finds it.
pub proof fn lemma_upsert_exactly_one_row(users: Seq<GithubUser>, entity: GithubUser)
    requires
        unique_ids(users),
    ensures
        unique_ids(spec_upsert(users, entity)),
        exists|i: int|
            0 <= i < spec_upsert(users, entity).len() && spec_upsert(users, entity)[i] == entity,
        forall|i: int|
            0 <= i < spec_upsert(users, entity).len() && spec_upsert(users, entity)[i].id
                == entity.id ==> spec_upsert(users, entity)[i] == entity,
        find_by_id(spec_upsert(users, entity), entity.id) == Some(entity),
{
    let after = spec_upsert(users, entity);
    lemma_find_by_id_characterizes(after, entity.id);
    if has_id(users, entity.id) {
        let w = choose|i: int| 0 <= i < users.len() && users[i].id == entity.id;
        assert(after[w] == entity);
        assert forall|i: int, j: int|
            0 <= i < j < after.len() implies after[i].id != after[j].id by {
            assert(after[i].id == users[i].id);
            assert(after[j].id == users[j].id);
        }
    } else {
        assert(after[users.len() as int] == entity);
    }
}

/// An upsert leaves every row under another id exactly where an id lookup
/// found it before.
pub proof fn lemma_upsert_preserves_other_rows(
    users: Seq<GithubUser>,
    entity: GithubUser,
    other: i32,
)
    requires
        other != entity.id,
    ensures
        find_by_id(spec_upsert(users, entity), other) == find_by_id(users, other),
{
    if has_id(users, entity.id) {
        lemma_update_preserves_other_rows(users, entity, other);
    } else {
        lemma_push_preserves_other_rows(users, entity, other);
    }
}

proof fn lemma_update_preserves_other_rows(
    users: Seq<GithubUser>,
    entity: GithubUser,
    other: i32,
)
    requires
        other != entity.id,
    ensures
        find_by_id(spec_update(users, entity), other) == find_by_id(users, other),
    decreases users.len(),
{
    let after = spec_update(users, entity);
    if users.len() > 0 {
        assert(after.drop_first() =~= spec_update(users.drop_first(), entity));
        if users[0].id != other {
            assert(after[0].id != other);
            lemma_update_preserves_other_rows(users.drop_first(), entity, other);
        } else {
            assert(after[0] == users[0]);
        }
    }
}

proof fn lemma_push_preserves_other_rows(users: Seq<GithubUser>, entity: GithubUser, other: i32)
    requires
        other != entity.id,
    ensures
        find_by_id(users.push(entity), other) == find_by_id(users, other),
    decreases users.len(),
{
    let after = users.push(entity);
    if users.len() == 0 {
        assert(after[0] == entity);
        assert(after.drop_first() =~= Seq::<GithubUser>::empty());
        assert(find_by_id(after.drop_first(), other) is None);
    } else {
        assert(after[0] == users[0]);
        assert(after.drop_first() =~= users.drop_first().push(entity));
        lemma_push_preserves_other_rows(users.drop_first(), entity, other);
    }
}

/// Upserting twice under the same id is the same as upserting once: one
/// row carries the id afterwards, the second write's values win, and the
/// second write adds no row.
pub proof fn lemma_upsert_idempotent(users: Seq<GithubUser>, first: GithubUser, second: GithubUser)
    requires
        unique_ids(users),
        first.id == second.id,
    ensures
        ({
            let after = spec_upsert(spec_upsert(users, first), second);
            &&& unique_ids(after)
            &&& exists|i: int| 0 <= i < after.len() && after[i] == second
            &&& forall|i: int|
                0 <= i < after.len() && after[i].id == second.id ==> after[i] == second
            &&& after.len() == spec_upsert(users, first).len()
        }),
{
    lemma_upsert_exactly_one_row(users, first);
    let mid = spec_upsert(users, first);
    lemma_upsert_exactly_one_row(mid, second);
    assert(has_id(mid, second.id));
}

/// The persistent store of profile records: one row per id, usernames
/// looked up case-insensitively, row order preserved across updates.
pub struct GitHubUserRepository {
    pub users: Vec<GithubUser>,
}

impl GitHubUserRepository {
    /// The store's invariant: ids are unique across rows.
    pub open spec fn wf(&self) -> bool {
        unique_ids(self.users@)
    }

    /// An empty store.
    pub fn new() -> (r: Self)
        ensures
            r.wf(),
            r.users@ =~= Seq::<GithubUser>::empty(),
    {
        GitHubUserRepository { users: Vec::new() }
    }

    /// Case-insensitive exact match on the username; returns the first
    /// matching row, or absence. Never an error on a miss.
    pub fn get_by_username(&self, username: &str) -> (r: Option<GithubUser>)
        ensures
            r == find_by_username(self.users@, username@),
    {
        let n = self.users.len();
        proof {
            assert(self.users@.skip(0) =~= self.users@);
        }
        let mut i: usize = 0;
        while i < n
            invariant
                n == self.users@.len(),
                0 <= i <= n,
                find_by_username(self.users@, username@) == find_by_username(
                    self.users@.skip(i as int),
                    username@,
                ),
            decreases n - i,
        {
            proof {
                assert(self.users@.skip(i as int)[0] == self.users@[i as int]);
            }
            if text::eq_ignore_ascii_case(self.users[i].username.as_str(), username) {
                return Some(self.users[i].clone());
            }
            proof {
                assert(self.users@.skip(i as int).drop_first() =~= self.users@.skip(i + 1));
            }
            i += 1;
        }
        None
    }

    /// Exact match on the id; returns the single matching row, or absence.
    pub fn get_by_id(&self, id: i32) -> (r: Option<GithubUser>)
        ensures
            r == find_by_id(self.users@, id),
    {
        let n = self.users.len();
        proof {
            assert(self.users@.skip(0) =~= self.users@);
        }
        let mut i: usize = 0;
        while i < n
            invariant
                n == self.users@.len(),
                0 <= i <= n,
                find_by_id(self.users@, id) == find_by_id(self.users@.skip(i as int), id),
            decreases n - i,
        {
            proof {
                assert(self.users@.skip(i as int)[0] == self.users@[i as int]);
            }
            if self.users[i].id == id {
                return Some(self.users[i].clone());
            }
            proof {
                assert(self.users@.skip(i as int).drop_first() =~= self.users@.skip(i + 1));
            }
            i += 1;
        }
        None
    }

    /// Appends a new row; refused when a row with the same id exists.
    pub fn insert(&mut self, entity: GithubUser) -> (r: Result<(), StorageError>)
        requires
            old(self).wf(),
        ensures
            final(self).wf(),
            match r {
                Ok(()) => !has_id(old(self).users@, entity.id) && final(self).users@ == old(
                    self,
                ).users@.push(entity),
                Err(e) => has_id(old(self).users@, entity.id) && *final(self) == *old(self) && e
                    == StorageError::DuplicateId,
            },
    {
        let n = self.users.len();
        let mut i: usize = 0;
        while i < n
            invariant
                *self == *old(self),
                old(self).wf(),
                n == self.users@.len(),
                0 <= i <= n,
                forall|j: int| 0 <= j < i ==> self.users@[j].id != entity.id,
            decreases n - i,
        {
            if self.users[i].id == entity.id {
                return Err(StorageError::DuplicateId);
            }
            i += 1;
        }
        self.users.push(entity);
        Ok(())
    }

    /// Replaces all fields of the row carrying `entity.id` in a single
    /// step; succeeds with no effect when no such row exists.
    pub fn update(&mut self, entity: GithubUser) -> (r: Result<(), StorageError>)
        requires
            old(self).wf(),
        ensures
            final(self).wf(),
            r is Ok,
            final(self).users@ == spec_update(old(self).users@, entity),
    {
        let n = self.users.len();
        let ghost orig = self.users@;
        let mut i: usize = 0;
        while i < n
            invariant
                n == orig.len(),
                self.users@.len() == orig.len(),
                0 <= i <= n,
                forall|j: int|
                    0 <= j < orig.len() ==> self.users@[j] == (if j < i && orig[j].id == entity.id {
                        entity
                    } else {
                        orig[j]
                    }),
            decreases n - i,
        {
            if self.users[i].id == entity.id {
                let replacement = entity.clone();
                self.users[i] = replacement;
            }
            i += 1;
        }
        proof {
            assert(self.users@ =~= spec_update(orig, entity));
            assert forall|a: int, b: int|
                0 <= a < b < self.users@.len() implies self.users@[a].id != self.users@[b].id by {
                assert(orig[a].id != orig[b].id);
            }
        }
        Ok(())
    }

    /// Inserts when no row carries `entity.id`, else replaces that row in
    /// place: the insert-or-replace write the refresh path relies on.
    pub fn upsert(&mut self, entity: GithubUser) -> (r: Result<(), StorageError>)
        requires
            old(self).wf(),
        ensures
            final(self).wf(),
            r is Ok,
            final(self).users@ == spec_upsert(old(self).users@, entity),
    {
        let insert_result = self.insert(entity.clone());
        match insert_result {
            Ok(()) => Ok(()),
            Err(_) => self.update(entity),
        }
    }
}

} // verus!

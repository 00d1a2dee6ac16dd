//! Process-wide permission cache: a mapping from user id to the
//! permission set captured at the user's last login or refresh.
//!
//! The cache is the single source of truth for the authorization gate.
//! A privileged account is stored as the distinguished wildcard variant
//! rather than as a literal code, so a real permission code can never
//! collide with "all permissions". An empty explicit set is a valid
//! cached state: it authenticates the user while denying every check.

use vstd::prelude::*;
use vstd::string::StrSliceExecFns;
use std::collections::HashMap;

verus! {

broadcast use vstd::std_specs::hash::group_hash_axioms;

/// A user's cached grants: everything, or exactly the listed codes.
#[derive(Clone, Debug)]
pub enum PermissionSet {
    /// All permissions; used for system/privileged accounts.
    Wildcard,
    /// Exactly these permission codes, possibly none.
    Codes(Vec<String>),
}

/// The mathematical shape of a permission set: the wildcard, or the
/// codes as a sequence of character strings.
pub enum PermissionSetModel {
    Wildcard,
    Codes(Seq<Seq<char>>),
}

impl View for PermissionSet {
    type V = PermissionSetModel;

    open spec fn view(&self) -> PermissionSetModel {
        match self {
            PermissionSet::Wildcard => PermissionSetModel::Wildcard,
            PermissionSet::Codes(v) => PermissionSetModel::Codes(v.deep_view()),
        }
    }
}

impl PermissionSetModel {
    /// Whether this set grants the permission `code`: the wildcard grants
    /// everything, an explicit set grants exactly its members.
    pub open spec fn grants(self, code: Seq<char>) -> bool {
        match self {
            PermissionSetModel::Wildcard => true,
            PermissionSetModel::Codes(codes) => codes.contains(code),
        }
    }
}

/// Compares two string slices character by character.
pub fn str_eq(a: &str, b: &str) -> (r: bool)
    ensures
        r == (a@ == b@),
{
    let a_len = a.unicode_len();
    let b_len = b.unicode_len();
    if a_len != b_len {
        return false;
    }
    let mut i: usize = 0;
    while i < a_len
        invariant
            a_len == a@.len(),
            b_len == b@.len(),
            a_len == b_len,
            i <= a_len,
            forall|j: int| 0 <= j < i ==> a@[j] == b@[j],
        decreases a_len - i,
    {
        if a.get_char(i) != b.get_char(i) {
            return false;
        }
        i += 1;
    }
    proof {
        assert(a@ =~= b@);
    }
    true
}

fn codes_contain(codes: &Vec<String>, code: &str) -> (r: bool)
    ensures
        r == codes.deep_view().contains(code@),
{
    let mut i: usize = 0;
    while i < codes.len()
        invariant
            i <= codes.len(),
            forall|j: int| 0 <= j < i ==> codes.deep_view()[j] != code@,
        decreases codes.len() - i,
    {
        if str_eq(codes[i].as_str(), code) {
            proof {
                assert(codes.deep_view()[i as int] == code@);
            }
            return true;
        }
        i += 1;
    }
    proof {
        assert(forall|j: int| 0 <= j < codes.deep_view().len() ==> codes.deep_view()[j] != code@);
    }
    false
}

/// In-memory permission store keyed by user id, consulted on every
/// authorization decision and mutated only by login, refresh and logout.
///
/// An instance is constructed explicitly and handed to the authorization middleware and the
/// orchestrator, which keeps tests free to build isolated caches. The
/// process-wide sharing (one instance behind a lock for every request
/// task) is the embedding program's concern; every operation here
/// replaces whole entries, so a reader can never observe a partially
/// written one.
pub struct PermissionCache {
    entries: HashMap<i64, PermissionSet>,
}

impl View for PermissionCache {
    type V = Map<i64, PermissionSet>;

    closed spec fn view(&self) -> Map<i64, PermissionSet> {
        self.entries@
    }
}

impl PermissionCache {
    /// Creates an empty cache, the state at process start.
    pub fn new() -> (c: Self)
        ensures
            c@ == Map::<i64, PermissionSet>::empty(),
    {
        PermissionCache { entries: HashMap::new() }
    }

    /// Unconditionally overwrites the entry for `user_id`; last writer wins.
    pub fn put(&mut self, user_id: i64, permissions: PermissionSet)
        ensures
            final(self)@ == old(self)@.insert(user_id, permissions),
    {
        self.entries.insert(user_id, permissions);
    }

    /// Reads the cached set for `user_id`; `None` is a miss, meaning the
    /// user has no active cached session in this process.
    pub fn get(&self, user_id: i64) -> (r: Option<&PermissionSet>)
        ensures
            match r {
                Some(p) => self@.contains_key(user_id) && *p == self@[user_id],
                None => !self@.contains_key(user_id),
            },
    {
        self.entries.get(&user_id)
    }

    /// Removes the entry for `user_id`; used on logout, and a no-op when
    /// no entry exists, so eviction is idempotent.
    pub fn evict(&mut self, user_id: i64)
        ensures
            final(self)@ == old(self)@.remove(user_id),
    {
        self.entries.remove(&user_id);
    }

    /// Whether the cached set for `user_id` grants `code`: true exactly
    /// when an entry exists and it is the wildcard or contains the code.
    /// A miss and an empty explicit set both deny.
    pub fn has(&self, user_id: i64, code: &str) -> (r: bool)
        ensures
            r == (self@.contains_key(user_id) && self@[user_id]@.grants(code@)),
    {
        match self.entries.get(&user_id) {
            None => false,
            Some(entry) => match entry {
                PermissionSet::Wildcard => true,
                PermissionSet::Codes(codes) => codes_contain(codes, code),
            },
        }
    }
}

/// The wildcard set grants every permission code.
pub proof fn lemma_wildcard_grants_all(code: Seq<char>)
    ensures
        PermissionSetModel::Wildcard.grants(code),
{
}

/// An empty explicit permission set denies every permission code, even
/// though it is a valid cached entry for an authenticated user.
pub proof fn lemma_empty_set_denies_all(code: Seq<char>)
    ensures
        !PermissionSetModel::Codes(Seq::empty()).grants(code),
{
}

/// Evicting a user is idempotent: a second eviction changes nothing, and
/// after either the cache holds no entry for that user.
pub proof fn lemma_evict_idempotent(cache: Map<i64, PermissionSet>, user_id: i64)
    ensures
        cache.remove(user_id).remove(user_id) =~= cache.remove(user_id),
        !cache.remove(user_id).contains_key(user_id),
{
}

/// Cache writes for one user never disturb another user's entry: logins
/// for distinct users are isolated from each other.
pub proof fn lemma_put_isolated(
    cache: Map<i64, PermissionSet>,
    user_id: i64,
    permissions: PermissionSet,
    other: i64,
)
    requires
        other != user_id,
    ensures
        cache.insert(user_id, permissions)[user_id] == permissions,
        cache.insert(user_id, permissions).contains_key(other) == cache.contains_key(other),
        cache.contains_key(other) ==> cache.insert(user_id, permissions)[other] == cache[other],
{
}

} // verus!

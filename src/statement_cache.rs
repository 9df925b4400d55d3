//! The prepared-statement cache: a bounded LRU map from SQL text to the
//! server's statement id, and the choice between EXECUTE by id and by text.
use vstd::prelude::*;
use lru::LruCache;
use std::num::NonZeroUsize;
use std::collections::hash_map::RandomState;
use crate::request::{Execute, ExecuteStatement};

verus! {

/// The LRU map of the `lru` crate (`lru::LruCache`), opaque here: what it
/// holds is named by `lru_entries` and its bound by `lru_capacity`.
#[verifier::external_type_specification]
#[verifier::external_body]
#[verifier::reject_recursive_types(K)]
#[verifier::reject_recursive_types(V)]
#[verifier::reject_recursive_types(S)]
pub struct ExLruCache<K, V, S>(LruCache<K, V, S>);

/// The LRU map the cache is made of.
pub type SqlLru = LruCache<String, u64, RandomState>;

/// What the cache holds: SQL text to statement id.
pub uninterp spec fn lru_entries(c: SqlLru) -> Map<Seq<char>, u64>;

/// The bound the cache was made with.
pub uninterp spec fn lru_capacity(c: SqlLru) -> nat;

/// Relies on `lru::LruCache::with_hasher`: an empty cache bounded by `cap`.
#[verifier::external_body]
fn lru_new(cap: usize) -> (r: SqlLru)
    requires
        cap > 0,
    ensures
        lru_entries(r).dom() == Set::<Seq<char>>::empty(),
        lru_capacity(r) == cap,
{
    LruCache::with_hasher(NonZeroUsize::new(cap).unwrap(), RandomState::new())
}

/// Relies on `lru::LruCache::get`: the value under the key, if present; the
/// lookup only moves the entry to the front, the contents stay.
#[verifier::external_body]
fn lru_get(c: &mut SqlLru, k: &str) -> (r: Option<u64>)
    ensures
        lru_entries(*final(c)) == lru_entries(*old(c)),
        lru_capacity(*final(c)) == lru_capacity(*old(c)),
        r == (if lru_entries(*old(c)).contains_key(k@) {
            Some(lru_entries(*old(c))[k@])
        } else {
            None::<u64>
        }),
{
    c.get(k).copied()
}

/// Relies on `lru::LruCache::put`: the key then maps to the value; when the
/// key was new and the cache full, the least recently used entry leaves;
/// no other entry changes.
#[verifier::external_body]
fn lru_put(c: &mut SqlLru, k: String, v: u64)
    requires
        lru_entries(*old(c)).len() <= lru_capacity(*old(c)),
        lru_capacity(*old(c)) > 0,
    ensures
        lru_capacity(*final(c)) == lru_capacity(*old(c)),
        lru_entries(*final(c)).contains_key(k@),
        lru_entries(*final(c))[k@] == v,
        lru_entries(*final(c)).len() <= lru_capacity(*final(c)),
        forall|q: Seq<char>| #[trigger] lru_entries(*final(c)).contains_key(q) && q != k@
            ==> lru_entries(*old(c)).contains_key(q) && lru_entries(*final(c))[q] == lru_entries(*old(c))[q],
        (lru_entries(*old(c)).contains_key(k@) || lru_entries(*old(c)).len() < lru_capacity(*old(c)))
            ==> lru_entries(*final(c)) == lru_entries(*old(c)).insert(k@, v),
{
    let _ = c.put(k, v);
}

/// A bounded map from SQL text to prepared statement id.
pub struct SqlStatementCache {
    lru: SqlLru,
}

impl SqlStatementCache {
    pub closed spec fn entries(&self) -> Map<Seq<char>, u64> {
        lru_entries(self.lru)
    }

    pub closed spec fn capacity(&self) -> nat {
        lru_capacity(self.lru)
    }

    pub open spec fn wf(&self) -> bool {
        self.capacity() > 0 && self.entries().len() <= self.capacity()
    }

    /// A cache of `capacity` statements; a capacity of 0 disables caching.
    pub fn new(capacity: usize) -> (r: Option<Self>)
        ensures
            capacity == 0 <==> r is None,
            r is Some ==> r->Some_0.wf() && r->Some_0.entries() == Map::<Seq<char>, u64>::empty()
                && r->Some_0.capacity() == capacity,
    {
        if capacity == 0 {
            None
        } else {
            Some(SqlStatementCache { lru: lru_new(capacity) })
        }
    }

    /// The statement id cached for `sql`.
    pub fn get(&mut self, sql: &str) -> (r: Option<u64>)
        requires
            old(self).wf(),
        ensures
            final(self).wf(),
            final(self).entries() == old(self).entries(),
            final(self).capacity() == old(self).capacity(),
            r == (if old(self).entries().contains_key(sql@) {
                Some(old(self).entries()[sql@])
            } else {
                None::<u64>
            }),
    {
        lru_get(&mut self.lru, sql)
    }

    /// Caches `id` for `sql`, evicting the least recently used statement
    /// when full.
    pub fn put(&mut self, sql: String, id: u64)
        requires
            old(self).wf(),
        ensures
            final(self).wf(),
            final(self).capacity() == old(self).capacity(),
            final(self).entries().contains_key(sql@),
            final(self).entries()[sql@] == id,
            forall|q: Seq<char>| #[trigger] final(self).entries().contains_key(q) && q != sql@
                ==> old(self).entries().contains_key(q) && final(self).entries()[q] == old(self).entries()[q],
    {
        lru_put(&mut self.lru, sql, id)
    }
}

/// How one `execute_sql` call proceeds.
pub struct ExecutePlan {
    /// The EXECUTE to send now.
    pub execute: Execute,
    /// Whether this call also prepares the statement to fill the cache.
    pub prepare: bool,
}

/// On a cache hit, EXECUTE by statement id; on a miss, EXECUTE by text,
/// and prepare the statement only when this call won the cache-update lock
/// (callers that lose it do not wait and do not prepare).
pub fn plan_execute(cached: Option<u64>, query: String, binds: Vec<u8>, update_lock_acquired: bool) -> (r: ExecutePlan)
    ensures
        r.execute.binds@ == binds@,
        match cached {
            Some(id) => r.execute.statement == ExecuteStatement::StatementId(id) && !r.prepare,
            None => r.execute.statement is Query && r.execute.statement->Query_0@ == query@
                && r.prepare == update_lock_acquired,
        },
{
    match cached {
        Some(id) => ExecutePlan { execute: Execute::new_statement_id(id, binds), prepare: false },
        None => ExecutePlan { execute: Execute::new_query(query, binds), prepare: update_lock_acquired },
    }
}

} // verus!

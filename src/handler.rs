//! The cache-aside engine for one settings table.

use std::collections::HashMap;
use std::marker::PhantomData;
use std::sync::Arc;
use vstd::prelude::*;

use crate::key::CacheKeyTrait;
use crate::template::{fill_template, strfmt_one};

verus! {

broadcast use vstd::std_specs::hash::group_hash_axioms;

/// The placeholder in the update template that the column name replaces.
pub const COLUMN_PLACEHOLDER: &'static str = "key";

/// Why an operation gave up.
#[derive(Debug, Clone, Copy, PartialEq, Eq, Structural)]
pub enum DbError {
    /// Neither the key's row nor the default row exists.
    DefaultRowMissing,
    /// The update template could not take the column name.
    BadTemplate,
}

/// A statement for the caller to run: its text, and the identifier fields
/// bound to its first parameters.
pub struct Query {
    pub sql: String,
    pub params: Vec<i64>,
}

/// A read that waits for the database. `key` is the key the caller asked
/// for; `asked` is the key whose row the pending select looks up.
#[derive(Clone, Copy)]
pub struct PendingGet<T> {
    pub key: T,
    pub asked: T,
}

/// Where a read stands: answered, or waiting on a select.
pub enum GetStep<T, R> {
    Ready(Arc<R>),
    Fetch(PendingGet<T>, Query),
}

/// The course of a read, as the model sees it.
pub enum Outcome<T, R> {
    /// The read is answered with this snapshot.
    Row(Arc<R>),
    /// The read waits on the row of this key.
    Ask(T),
    /// The read failed: no row, and no default row either.
    Missing,
}

/// The cache-aside engine: a cache from key to the last row read, and the
/// four statement templates of its table.
pub struct DatabaseHandler<T, R> {
    cache: HashMap<u128, Arc<R>>,
    single_insert: &'static str,
    create_row: &'static str,
    select: &'static str,
    delete: &'static str,
    shape: PhantomData<T>,
}

/// How a read starts: a cached snapshot, or a select of the key's own row.
pub open spec fn begin_read<T: CacheKeyTrait, R>(cache: Map<u128, Arc<R>>, key: T) -> Outcome<T, R> {
    if cache.contains_key(key.cache_id_spec()) {
        Outcome::Row(cache[key.cache_id_spec()])
    } else {
        Outcome::Ask(key)
    }
}

/// How a read goes on once the select of `asked` has answered `reply`: a
/// row is cached under `key` and returned; a missing row sends the read on
/// to the default row, unless that is the row that was missing.
pub open spec fn after_reply<T: CacheKeyTrait, R>(
    cache: Map<u128, Arc<R>>,
    key: T,
    asked: T,
    reply: Option<R>,
) -> (Map<u128, Arc<R>>, Outcome<T, R>) {
    match reply {
        Some(row) => (cache.insert(key.cache_id_spec(), Arc::new(row)), Outcome::Row(Arc::new(row))),
        None => if asked == T::default_spec() {
            (cache, Outcome::Missing)
        } else {
            (cache, Outcome::Ask(T::default_spec()))
        },
    }
}

/// Whether `create_row` sends an insert: only for a key with no cache entry.
pub open spec fn sends_insert<T: CacheKeyTrait, R>(cache: Map<u128, Arc<R>>, key: T) -> bool {
    !cache.contains_key(key.cache_id_spec())
}

/// Relies on `Arc::clone`, which hands out another pointer to the same value.
#[verifier::external_body]
fn share<R>(a: &Arc<R>) -> (r: Arc<R>)
    ensures
        r == *a,
{
    a.clone()
}

impl<T: CacheKeyTrait, R> DatabaseHandler<T, R> {
    /// The cache, by key number.
    pub closed spec fn cached(&self) -> Map<u128, Arc<R>> {
        self.cache@
    }

    pub closed spec fn select_sql(&self) -> Seq<char> {
        self.select@
    }

    pub closed spec fn delete_sql(&self) -> Seq<char> {
        self.delete@
    }

    pub closed spec fn create_row_sql(&self) -> Seq<char> {
        self.create_row@
    }

    pub closed spec fn single_insert_sql(&self) -> Seq<char> {
        self.single_insert@
    }

    /// The select for the row of `asked`.
    fn select_query(&self, asked: T) -> (q: Query)
        ensures
            q.sql@ == self.select_sql(),
            q.params@ == asked.params_spec(),
    {
        Query { sql: self.select.to_owned(), params: asked.bind_params() }
    }

    /// An engine with an empty cache over the given statement templates.
    pub fn new(
        select: &'static str,
        delete: &'static str,
        create_row: &'static str,
        single_insert: &'static str,
    ) -> (r: Self)
        ensures
            r.cached() == Map::<u128, Arc<R>>::empty(),
            r.select_sql() == select@,
            r.delete_sql() == delete@,
            r.create_row_sql() == create_row@,
            r.single_insert_sql() == single_insert@,
    {
        DatabaseHandler {
            cache: HashMap::new(),
            single_insert,
            create_row,
            select,
            delete,
            shape: PhantomData,
        }
    }

    /// Starts a read: the cached snapshot, or the select of the key's row.
    pub fn get(&self, identifier: T) -> (r: GetStep<T, R>)
        ensures
            match (r, begin_read(self.cached(), identifier)) {
                (GetStep::Ready(a), Outcome::Row(b)) => a == b,
                (GetStep::Fetch(p, q), Outcome::Ask(k)) => {
                    &&& p.key == identifier
                    &&& p.asked == k
                    &&& q.sql@ == self.select_sql()
                    &&& q.params@ == k.params_spec()
                },
                _ => false,
            },
    {
        match self.cache.get(&identifier.cache_id()) {
            Some(row) => GetStep::Ready(share(row)),
            None => GetStep::Fetch(
                PendingGet { key: identifier, asked: identifier },
                self.select_query(identifier),
            ),
        }
    }

    /// Goes on with a read once its select has answered `reply`.
    pub fn fetched(&mut self, pending: PendingGet<T>, reply: Option<R>) -> (r: Result<GetStep<T, R>, DbError>)
        ensures
            final(self).select_sql() == old(self).select_sql(),
            final(self).delete_sql() == old(self).delete_sql(),
            final(self).create_row_sql() == old(self).create_row_sql(),
            final(self).single_insert_sql() == old(self).single_insert_sql(),
            final(self).cached() == after_reply(old(self).cached(), pending.key, pending.asked, reply).0,
            match (r, after_reply(old(self).cached(), pending.key, pending.asked, reply).1) {
                (Ok(GetStep::Ready(a)), Outcome::Row(b)) => a == b,
                (Ok(GetStep::Fetch(p, q)), Outcome::Ask(k)) => {
                    &&& p.key == pending.key
                    &&& p.asked == k
                    &&& q.sql@ == old(self).select_sql()
                    &&& q.params@ == k.params_spec()
                },
                (Err(e), Outcome::Missing) => e == DbError::DefaultRowMissing,
                _ => false,
            },
    {
        match reply {
            Some(row) => {
                let snapshot = Arc::new(row);
                self.cache.insert(pending.key.cache_id(), share(&snapshot));
                Ok(GetStep::Ready(snapshot))
            },
            None => {
                if pending.asked.is_default() {
                    Err(DbError::DefaultRowMissing)
                } else {
                    let fallback = T::default_key();
                    Ok(GetStep::Fetch(
                        PendingGet { key: pending.key, asked: fallback },
                        self.select_query(fallback),
                    ))
                }
            },
        }
    }

    /// The insert of a fresh row for `identifier`; `None` where the key is
    /// cached, which is taken to mean that its row exists.
    pub fn create_row(&self, identifier: T) -> (r: Option<Query>)
        ensures
            r is Some <==> sends_insert(self.cached(), identifier),
            r is Some ==> r->0.sql@ == self.create_row_sql() && r->0.params@ == identifier.params_spec(),
    {
        if self.cache.contains_key(&identifier.cache_id()) {
            None
        } else {
            Some(Query { sql: self.create_row.to_owned(), params: identifier.bind_params() })
        }
    }

    /// The update of one column of `identifier`'s row, given the update
    /// template with the column name filled in (`None` where that failed).
    /// The caller binds the new value after the identifier fields.
    pub fn update_query(&self, identifier: T, sql: Option<String>) -> (r: Result<Query, DbError>)
        ensures
            match sql {
                Some(s) => r is Ok && r->Ok_0.sql@ == s@ && r->Ok_0.params@ == identifier.params_spec(),
                None => r == Err::<Query, DbError>(DbError::BadTemplate),
            },
    {
        match sql {
            Some(s) => Ok(Query { sql: s, params: identifier.bind_params() }),
            None => Err(DbError::BadTemplate),
        }
    }

    /// The update of column `key` of `identifier`'s row. Once it has run,
    /// the caller calls `invalidate`.
    pub fn set_one(&self, identifier: T, key: &str) -> (r: Result<Query, DbError>)
        ensures
            match strfmt_one(self.single_insert_sql(), COLUMN_PLACEHOLDER@, key@) {
                Some(s) => r is Ok && r->Ok_0.sql@ == s && r->Ok_0.params@ == identifier.params_spec(),
                None => r == Err::<Query, DbError>(DbError::BadTemplate),
            },
    {
        let filled = match fill_template(self.single_insert, COLUMN_PLACEHOLDER, key) {
            Ok(s) => Some(s),
            Err(_) => None,
        };
        self.update_query(identifier, filled)
    }

    /// The delete of `identifier`'s row. Once it has run, the caller calls
    /// `invalidate`.
    pub fn delete(&self, identifier: T) -> (r: Query)
        ensures
            r.sql@ == self.delete_sql(),
            r.params@ == identifier.params_spec(),
    {
        Query { sql: self.delete.to_owned(), params: identifier.bind_params() }
    }

    /// Drops the cache entry of `identifier`, so that the next read goes to
    /// the database.
    pub fn invalidate(&mut self, identifier: T)
        ensures
            final(self).cached() == old(self).cached().remove(identifier.cache_id_spec()),
            final(self).select_sql() == old(self).select_sql(),
            final(self).delete_sql() == old(self).delete_sql(),
            final(self).create_row_sql() == old(self).create_row_sql(),
            final(self).single_insert_sql() == old(self).single_insert_sql(),
    {
        self.cache.remove(&identifier.cache_id());
    }
}

} // verus!

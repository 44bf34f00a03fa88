//! What holds of the engine across several calls, with the table modelled as
//! a map from bound identifier fields to rows.

use std::sync::Arc;
use vstd::prelude::*;

use crate::handler::{after_reply, begin_read, sends_insert, Outcome};
use crate::key::CacheKeyTrait;

verus! {

/// The row that `table` holds for `key`, if any.
pub open spec fn row_of<T: CacheKeyTrait, R>(table: Map<Seq<i64>, R>, key: T) -> Option<R> {
    if table.contains_key(key.params_spec()) {
        Some(table[key.params_spec()])
    } else {
        None
    }
}

/// A read of `key` carried through from `cache`, with each select that the
/// engine asks for answered from `table`: the resulting cache and outcome.
pub open spec fn read_through<T: CacheKeyTrait, R>(
    cache: Map<u128, Arc<R>>,
    table: Map<Seq<i64>, R>,
    key: T,
) -> (Map<u128, Arc<R>>, Outcome<T, R>) {
    match begin_read(cache, key) {
        Outcome::Ask(a) => {
            let first = after_reply(cache, key, a, row_of(table, a));
            match first.1 {
                Outcome::Ask(b) => after_reply(first.0, key, b, row_of(table, b)),
                _ => first,
            }
        },
        o => (cache, o),
    }
}

/// What a read of an uncached `key` yields from `table`: its own row, else
/// the default row, else a failure.
pub open spec fn resolve<T: CacheKeyTrait, R>(table: Map<Seq<i64>, R>, key: T) -> Outcome<T, R> {
    match row_of(table, key) {
        Some(r) => Outcome::Row(Arc::new(r)),
        None => match row_of(table, T::default_spec()) {
            Some(r) => Outcome::Row(Arc::new(r)),
            None => Outcome::Missing,
        },
    }
}

/// A read takes at most two selects: a cached key is answered from the
/// cache, any other as `resolve` says, and the answer is then cached.
pub proof fn lemma_read_resolves<T: CacheKeyTrait, R>(
    cache: Map<u128, Arc<R>>,
    table: Map<Seq<i64>, R>,
    key: T,
)
    ensures
        cache.contains_key(key.cache_id_spec()) ==> read_through(cache, table, key) == (
        cache,
        Outcome::<T, R>::Row(cache[key.cache_id_spec()]),
        ),
        !cache.contains_key(key.cache_id_spec()) ==> read_through(cache, table, key).1 == resolve(
            table,
            key,
        ),
        !cache.contains_key(key.cache_id_spec()) ==> match resolve(table, key) {
            Outcome::Row(r) => read_through(cache, table, key).0 == cache.insert(key.cache_id_spec(), r),
            _ => read_through(cache, table, key).0 == cache,
        },
{
}

/// A read that succeeded leaves its snapshot cached: reading the same key
/// again, with no write in between, is answered without a select.
pub proof fn lemma_read_again_hits<T: CacheKeyTrait, R>(
    cache: Map<u128, Arc<R>>,
    table: Map<Seq<i64>, R>,
    key: T,
)
    ensures
        read_through(cache, table, key).1 is Row ==> begin_read(read_through(cache, table, key).0, key)
            == read_through(cache, table, key).1,
{
    lemma_read_resolves(cache, table, key);
}

/// After a write of `key`'s row and the cache entry's removal, a read
/// returns the row as written.
pub proof fn lemma_write_then_read<T: CacheKeyTrait, R>(
    cache: Map<u128, Arc<R>>,
    table: Map<Seq<i64>, R>,
    key: T,
    written: R,
)
    ensures
        read_through(cache.remove(key.cache_id_spec()), table.insert(key.params_spec(), written), key).1
            == Outcome::<T, R>::Row(Arc::new(written)),
{
    lemma_read_resolves(cache.remove(key.cache_id_spec()), table.insert(key.params_spec(), written), key);
}

/// A key of any shape whose row is missing reads as the default key does,
/// where neither is cached.
pub proof fn lemma_missing_row_falls_back<T: CacheKeyTrait, R>(
    cache: Map<u128, Arc<R>>,
    table: Map<Seq<i64>, R>,
    key: T,
)
    requires
        !table.contains_key(key.params_spec()),
        !cache.contains_key(key.cache_id_spec()),
        !cache.contains_key(T::default_spec().cache_id_spec()),
    ensures
        read_through(cache, table, key).1 == read_through(cache, table, T::default_spec()).1,
{
    lemma_read_resolves(cache, table, key);
    lemma_read_resolves(cache, table, T::default_spec());
}

/// A simple key other than the default one, whose row is missing, reads as
/// key `0` does, where neither is cached.
pub proof fn lemma_simple_key_falls_back<R>(
    cache: Map<u128, Arc<R>>,
    table: Map<Seq<i64>, R>,
    key: u64,
)
    requires
        key != 0,
        !table.contains_key(key.params_spec()),
        !cache.contains_key(key.cache_id_spec()),
        !cache.contains_key(0u64.cache_id_spec()),
    ensures
        read_through(cache, table, key).1 == read_through(cache, table, 0u64).1,
{
    lemma_missing_row_falls_back(cache, table, key);
}

/// A composite key other than `[0, 0]`, whose row is missing, reads as
/// `[0, 0]` does, where neither is cached.
pub proof fn lemma_composite_key_falls_back<R>(
    cache: Map<u128, Arc<R>>,
    table: Map<Seq<i64>, R>,
    key: [u64; 2],
)
    requires
        key[0] != 0 || key[1] != 0,
        !table.contains_key(key.params_spec()),
        !cache.contains_key(key.cache_id_spec()),
        !cache.contains_key([0u64, 0u64].cache_id_spec()),
    ensures
        read_through(cache, table, key).1 == read_through(cache, table, [0u64, 0u64]).1,
{
    assert(<[u64; 2] as CacheKeyTrait>::default_spec() =~= [0u64, 0u64]);
    lemma_missing_row_falls_back(cache, table, key);
}

/// After the delete of a key's row (not the default row's) and the cache
/// entry's removal, a read of the key returns the default row, or fails
/// where that is missing too.
pub proof fn lemma_delete_then_read<T: CacheKeyTrait, R>(
    cache: Map<u128, Arc<R>>,
    table: Map<Seq<i64>, R>,
    key: T,
)
    requires
        key != T::default_spec(),
    ensures
        read_through(cache.remove(key.cache_id_spec()), table.remove(key.params_spec()), key).1
            == match row_of(table, T::default_spec()) {
            Some(r) => Outcome::<T, R>::Row(Arc::new(r)),
            None => Outcome::<T, R>::Missing,
        },
{
    T::lemma_params_injective(key, T::default_spec());
    lemma_read_resolves(cache.remove(key.cache_id_spec()), table.remove(key.params_spec()), key);
}

/// `create_row` leaves the cache as it is, so on an uncached key it sends
/// the same insert twice, and the second meets the row that the first made;
/// after a read that succeeded, it sends nothing.
pub proof fn lemma_create_row_twice<T: CacheKeyTrait, R>(
    cache: Map<u128, Arc<R>>,
    table: Map<Seq<i64>, R>,
    key: T,
    inserted: R,
)
    ensures
        sends_insert(cache, key) ==> row_of(table.insert(key.params_spec(), inserted), key) is Some,
        read_through(cache, table, key).1 is Row ==> !sends_insert(read_through(cache, table, key).0, key),
{
    lemma_read_resolves(cache, table, key);
}

} // verus!

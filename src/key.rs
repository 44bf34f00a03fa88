//! Key shapes: how an identifier is bound into a statement, which key holds
//! the default row, and under which number the cache files it.

use vstd::prelude::*;

verus! {

/// The identifier whose row holds the system-wide defaults.
pub const DEFAULT_ID: u64 = 0;

/// What the engine needs from a key shape.
pub trait CacheKeyTrait: Sized + Copy {
    /// The identifier fields, in the order they are bound as parameters.
    spec fn params_spec(&self) -> Seq<i64>;

    /// The key of this shape whose row holds the defaults.
    spec fn default_spec() -> Self;

    /// The number under which the cache files this key.
    spec fn cache_id_spec(&self) -> u128;

    /// The identifier fields as statement parameters.
    fn bind_params(&self) -> (r: Vec<i64>)
        ensures
            r@ == self.params_spec(),
    ;

    /// The key whose row holds the defaults.
    fn default_key() -> (r: Self)
        ensures
            r == Self::default_spec(),
    ;

    /// Whether this is the key of the default row.
    fn is_default(&self) -> (r: bool)
        ensures
            r == (*self == Self::default_spec()),
    ;

    /// The number under which the cache files this key.
    fn cache_id(&self) -> (r: u128)
        ensures
            r == self.cache_id_spec(),
    ;

    /// Distinct keys bind distinct parameters.
    proof fn lemma_params_injective(a: Self, b: Self)
        ensures
            a.params_spec() == b.params_spec() ==> a == b,
    ;
}

/// A simple key: one identifier, bound as one `BIGINT` parameter.
impl CacheKeyTrait for u64 {
    open spec fn params_spec(&self) -> Seq<i64> {
        seq![*self as i64]
    }

    open spec fn default_spec() -> u64 {
        DEFAULT_ID
    }

    open spec fn cache_id_spec(&self) -> u128 {
        *self as u128
    }

    fn bind_params(&self) -> (r: Vec<i64>) {
        let mut r: Vec<i64> = Vec::new();
        r.push(*self as i64);
        r
    }

    fn default_key() -> (r: u64) {
        DEFAULT_ID
    }

    fn is_default(&self) -> (r: bool) {
        *self == DEFAULT_ID
    }

    fn cache_id(&self) -> (r: u128) {
        *self as u128
    }

    proof fn lemma_params_injective(a: u64, b: u64) {
        if a.params_spec() == b.params_spec() {
            assert(a.params_spec()[0] == b.params_spec()[0]);
            assert((a as i64) == (b as i64) ==> a == b) by (bit_vector);
        }
    }
}

/// A composite key `[first, second]`: two identifiers, bound in that order.
impl CacheKeyTrait for [u64; 2] {
    open spec fn params_spec(&self) -> Seq<i64> {
        seq![self[0] as i64, self[1] as i64]
    }

    open spec fn default_spec() -> [u64; 2] {
        [DEFAULT_ID, DEFAULT_ID]
    }

    open spec fn cache_id_spec(&self) -> u128 {
        ((self[0] as u128) * 0x1_0000_0000_0000_0000u128 + (self[1] as u128)) as u128
    }

    fn bind_params(&self) -> (r: Vec<i64>) {
        let mut r: Vec<i64> = Vec::new();
        r.push(self[0] as i64);
        r.push(self[1] as i64);
        r
    }

    fn default_key() -> (r: [u64; 2]) {
        [DEFAULT_ID, DEFAULT_ID]
    }

    fn is_default(&self) -> (r: bool) {
        let r = self[0] == DEFAULT_ID && self[1] == DEFAULT_ID;
        proof {
            let d = Self::default_spec();
            if r {
                assert(*self =~= d);
            }
        }
        r
    }

    fn cache_id(&self) -> (r: u128) {
        let hi = self[0] as u128;
        let lo = self[1] as u128;
        assert(hi * 0x1_0000_0000_0000_0000u128 + lo <= u128::MAX) by (nonlinear_arith)
            requires
                hi <= u64::MAX,
                lo <= u64::MAX,
        ;
        hi * 0x1_0000_0000_0000_0000u128 + lo
    }

    proof fn lemma_params_injective(a: [u64; 2], b: [u64; 2]) {
        if a.params_spec() == b.params_spec() {
            assert(a.params_spec()[0] == b.params_spec()[0]);
            assert(a.params_spec()[1] == b.params_spec()[1]);
            let (a0, a1, b0, b1) = (a[0], a[1], b[0], b[1]);
            assert((a0 as i64) == (b0 as i64) ==> a0 == b0) by (bit_vector);
            assert((a1 as i64) == (b1 as i64) ==> a1 == b1) by (bit_vector);
            assert(a =~= b);
        }
    }
}

} // verus!

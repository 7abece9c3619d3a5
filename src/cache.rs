//! A cache from string keys to string values in which every entry lives for
//! a fixed time after it was written. Time is given by the caller, in
//! milliseconds of a monotonic clock.
use moka::sync::Cache;
use vstd::prelude::*;

verus! {

/// The moka cache that holds, for each key, a value and the time at which it
/// was written.
pub type Store = Cache<String, (String, u64)>;

/// For each key: the value that a moka cache holds under it, with the time
/// stored beside the value.
pub uninterp spec fn stored(c: Store) -> Map<Seq<char>, (Seq<char>, int)>;

#[verifier::external_type_specification]
#[verifier::external_body]
#[verifier::reject_recursive_types(K)]
#[verifier::reject_recursive_types(V)]
#[verifier::reject_recursive_types(S)]
pub struct ExCache<K, V, S>(Cache<K, V, S>);

/// Relies on moka's `Cache::builder().build()`: a cache with no capacity
/// bound, no expiry and nothing in it.
#[verifier::external_body]
fn store_new() -> (r: Store)
    ensures
        stored(r).dom() == Set::<Seq<char>>::empty(),
{
    Cache::builder().build()
}

/// Relies on moka's `Cache::get`: a clone of the value held under the key.
/// With no capacity bound, no expiry and no invalidation, a value stays held
/// until the key is written again.
#[verifier::external_body]
fn store_get(c: &Store, key: &str) -> (r: Option<(String, u64)>)
    ensures
        match r {
            Some(e) => stored(*c).contains_key(key@) && stored(*c)[key@] == (e.0@, e.1 as int),
            None => !stored(*c).contains_key(key@),
        },
{
    c.get(key)
}

/// Relies on moka's `Cache::insert`: the key then holds the value, in place
/// of any earlier one; other keys are untouched.
#[verifier::external_body]
fn store_insert(c: &mut Store, key: String, entry: (String, u64))
    ensures
        stored(*final(c)) == stored(*old(c)).insert(key@, (entry.0@, entry.1 as int)),
{
    c.insert(key, entry)
}

/// An entry written at `inserted_at` is still live at `now` while less than
/// `ttl` has elapsed since then.
pub open spec fn is_live(inserted_at: int, ttl: int, now: int) -> bool {
    now < inserted_at + ttl
}

pub struct TtlCache {
    ttl: u64,
    store: Store,
}

impl View for TtlCache {
    type V = Map<Seq<char>, (Seq<char>, int)>;

    /// For each key: the last value written and when.
    closed spec fn view(&self) -> Self::V {
        stored(self.store)
    }
}

impl TtlCache {
    /// How long an entry stays live, in milliseconds.
    pub closed spec fn ttl_spec(&self) -> int {
        self.ttl as int
    }

    /// The value that a lookup of `key` at time `now` finds: the last one
    /// written, while it is live.
    pub open spec fn live_value(&self, key: Seq<char>, now: int) -> Option<Seq<char>> {
        if self@.contains_key(key) && is_live(self@[key].1, self.ttl_spec(), now) {
            Some(self@[key].0)
        } else {
            None
        }
    }

    /// An empty cache whose entries live for `ttl` milliseconds.
    pub fn new(ttl: u64) -> (r: TtlCache)
        ensures
            r@ == Map::<Seq<char>, (Seq<char>, int)>::empty(),
            r.ttl_spec() == ttl,
    {
        TtlCache { ttl, store: store_new() }
    }

    pub fn ttl(&self) -> (r: u64)
        ensures
            r == self.ttl_spec(),
    {
        self.ttl
    }

    /// The live value under `key` at time `now`, if any.
    pub fn get(&self, key: &str, now: u64) -> (r: Option<String>)
        ensures
            match r {
                Some(v) => self.live_value(key@, now as int) == Some(v@),
                None => self.live_value(key@, now as int) is None,
            },
    {
        match store_get(&self.store, key) {
            Some((value, inserted_at)) => {
                let live = if now < inserted_at {
                    true
                } else {
                    now - inserted_at < self.ttl
                };
                if live {
                    Some(value)
                } else {
                    None
                }
            },
            None => None,
        }
    }

    /// Stores `value` under `key`, written at time `now`, in place of any
    /// earlier value of that key.
    pub fn insert(&mut self, key: &str, value: String, now: u64)
        ensures
            final(self)@ == old(self)@.insert(key@, (value@, now as int)),
            final(self).ttl_spec() == old(self).ttl_spec(),
    {
        store_insert(&mut self.store, String::from_str(key), (value, now));
    }
}

/// Once `value` has been written under `key` at `written`, and until the next
/// write of that key, a lookup at `now` finds `value` exactly while less than
/// the time to live has elapsed since the write, and nothing afterwards.
pub proof fn lemma_lookup_after_write(
    cache: TtlCache,
    key: Seq<char>,
    value: Seq<char>,
    written: int,
    now: int,
)
    requires
        cache@.contains_key(key),
        cache@[key] == (value, written),
        written <= now,
    ensures
        cache.live_value(key, now) == if now - written < cache.ttl_spec() {
            Some(value)
        } else {
            None::<Seq<char>>
        },
{
}

/// Writing one key changes at no time what a lookup of another key finds.
pub proof fn lemma_write_leaves_other_keys(
    before: TtlCache,
    after: TtlCache,
    written_key: Seq<char>,
    entry: (Seq<char>, int),
    other_key: Seq<char>,
    now: int,
)
    requires
        after@ == before@.insert(written_key, entry),
        after.ttl_spec() == before.ttl_spec(),
        written_key != other_key,
    ensures
        after.live_value(other_key, now) == before.live_value(other_key, now),
{
}

} // verus!

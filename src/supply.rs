//! The supply service: answers total, effective and circulating supply from
//! the cache where it can, and otherwise drives the upstream queries one at a
//! time. The caller performs each query it is asked for and hands the answer
//! back; the service decides what comes next.
use vstd::prelude::*;
use crate::amount::{decimal_chars, to_string_native};
use crate::cache::TtlCache;
use crate::error::ApiError;

verus! {

/// How long a supply value is served from the cache, in milliseconds.
pub const CACHE_TTL_MS: u64 = 60000;

#[derive(Clone, Copy, Debug, PartialEq, Eq, Structural)]
pub enum SupplyKind {
    Total,
    Effective,
    Circulating,
}

impl SupplyKind {
    pub open spec fn key_spec(self) -> Seq<char> {
        match self {
            SupplyKind::Total => "total_supply"@,
            SupplyKind::Effective => "effective_supply"@,
            SupplyKind::Circulating => "circulating_supply"@,
        }
    }

    /// The cache key under which values of this kind are stored.
    pub fn cache_key(&self) -> (r: &'static str)
        ensures
            r@ == self.key_spec(),
    {
        match self {
            SupplyKind::Total => "total_supply",
            SupplyKind::Effective => "effective_supply",
            SupplyKind::Circulating => "circulating_supply",
        }
    }
}

/// A query that the caller must put to the chain endpoint.
pub enum Upstream {
    /// Total supply of the native token.
    TotalSupply,
    /// Effective supply of the native token.
    EffectiveSupply,
    /// Balance of the native token held by this address.
    BalanceOf(String),
}

/// What the service asks of its caller after each step.
pub enum Step {
    /// The request is answered with this supply value.
    Ready(String),
    /// The request needs the answer to this query first.
    Fetch(Upstream),
    /// The request ends in this error.
    Failed(ApiError),
}

/// The result of subtracting `amounts` from `start` one after the other, in
/// order, where each subtraction must not go below zero.
pub open spec fn sequential_sub(start: int, amounts: Seq<int>) -> Option<int>
    decreases amounts.len(),
{
    if amounts.len() == 0 {
        Some(start)
    } else {
        match sequential_sub(start, amounts.drop_last()) {
            Some(rest) => if amounts.last() <= rest {
                Some(rest - amounts.last())
            } else {
                None
            },
            None => None,
        }
    }
}

pub open spec fn sum(amounts: Seq<int>) -> int
    decreases amounts.len(),
{
    if amounts.len() == 0 {
        0
    } else {
        sum(amounts.drop_last()) + amounts.last()
    }
}

/// The supply value that a complete list of upstream answers gives: for
/// total and effective supply the single answer; for circulating supply the
/// effective supply (first answer) less each balance (the others) in turn.
pub open spec fn result_value(kind: SupplyKind, answers: Seq<int>) -> Option<int> {
    if kind == SupplyKind::Circulating {
        sequential_sub(answers[0], answers.drop_first())
    } else {
        Some(answers[0])
    }
}

/// Whether `answers` are all the upstream answers that a request of `kind`
/// needs, with `n_addresses` non-circulating addresses.
pub open spec fn is_complete(kind: SupplyKind, answers: Seq<int>, n_addresses: int) -> bool {
    if kind == SupplyKind::Circulating {
        answers.len() == n_addresses + 1
    } else {
        answers.len() == 1
    }
}

/// The first query that a request of `kind` puts upstream on a cache miss.
pub open spec fn first_query(kind: SupplyKind) -> Upstream {
    if kind == SupplyKind::Total {
        Upstream::TotalSupply
    } else {
        Upstream::EffectiveSupply
    }
}

/// Subtracting balances one after the other fails exactly when their sum
/// exceeds the starting supply, and otherwise leaves the supply less the sum.
pub proof fn lemma_sequential_sub(start: int, amounts: Seq<int>)
    requires
        0 <= start,
        forall|i: int| 0 <= i < amounts.len() ==> 0 <= #[trigger] amounts[i],
    ensures
        sequential_sub(start, amounts) == if sum(amounts) <= start {
            Some(start - sum(amounts))
        } else {
            None::<int>
        },
    decreases amounts.len(),
{
    if amounts.len() > 0 {
        let prefix = amounts.drop_last();
        assert forall|i: int| 0 <= i < prefix.len() implies 0 <= #[trigger] prefix[i] by {
            assert(prefix[i] == amounts[i]);
        }
        lemma_sequential_sub(start, prefix);
        assert(0 <= amounts[amounts.len() - 1]);
    }
}

/// The three kinds of supply are cached under three different keys.
pub proof fn lemma_keys_distinct(a: SupplyKind, b: SupplyKind)
    requires
        a != b,
    ensures
        a.key_spec() != b.key_spec(),
{
    reveal_strlit("total_supply");
    reveal_strlit("effective_supply");
    reveal_strlit("circulating_supply");
    assert(a.key_spec().len() != b.key_spec().len());
}

/// A supply request in progress.
pub struct Computation {
    kind: SupplyKind,
    received: usize,
    remaining: u128,
    finished: bool,
    answers: Ghost<Seq<int>>,
}

impl Computation {
    pub closed spec fn kind_spec(&self) -> SupplyKind {
        self.kind
    }

    /// The upstream answers received so far, in order.
    pub closed spec fn answers(&self) -> Seq<int> {
        self.answers@
    }

    /// Whether the request has ended, in a value or an error.
    pub closed spec fn is_finished(&self) -> bool {
        self.finished
    }

    pub closed spec fn wf(&self, n_addresses: int) -> bool {
        &&& forall|i: int|
            0 <= i < self.answers@.len() ==> 0 <= #[trigger] self.answers@[i] <= u128::MAX
        &&& !self.finished ==> self.received == self.answers@.len()
        &&& !self.finished ==> if self.kind == SupplyKind::Circulating {
            &&& self.received <= n_addresses
            &&& self.received >= 1 ==> result_value(self.kind, self.answers@) == Some(
                self.remaining as int,
            )
        } else {
            self.received == 0
        }
    }

    pub fn kind(&self) -> (r: SupplyKind)
        ensures
            r == self.kind_spec(),
    {
        self.kind
    }
}

pub struct Client {
    native_token: String,
    non_circulating: Vec<String>,
    cache: TtlCache,
}

impl Client {
    pub closed spec fn native_token_spec(&self) -> Seq<char> {
        self.native_token@
    }

    /// The addresses whose balances do not count as circulating, in order.
    pub closed spec fn addresses(&self) -> Seq<String> {
        self.non_circulating@
    }

    pub closed spec fn cache_spec(&self) -> TtlCache {
        self.cache
    }

    /// A service for the native token `native_token`, with an empty cache
    /// whose entries live `ttl_ms` milliseconds.
    pub fn new(native_token: String, non_circulating: Vec<String>, ttl_ms: u64) -> (r: Client)
        ensures
            r.native_token_spec() == native_token@,
            r.addresses() == non_circulating@,
            r.cache_spec()@ == Map::<Seq<char>, (Seq<char>, int)>::empty(),
            r.cache_spec().ttl_spec() == ttl_ms,
    {
        Client { native_token, non_circulating, cache: TtlCache::new(ttl_ms) }
    }

    pub fn native_token(&self) -> (r: &str)
        ensures
            r@ == self.native_token_spec(),
    {
        self.native_token.as_str()
    }

    pub fn cache(&self) -> (r: &TtlCache)
        ensures
            *r == self.cache_spec(),
    {
        &self.cache
    }

    /// Starts a request of `kind` at time `now`. A live cached value answers
    /// it at once, with no upstream query; otherwise the first query is asked.
    pub fn begin(&self, kind: SupplyKind, now: u64) -> (r: (Step, Computation))
        ensures
            r.1.kind_spec() == kind,
            r.1.wf(self.addresses().len() as int),
            match self.cache_spec().live_value(kind.key_spec(), now as int) {
                Some(v) => r.1.is_finished() && match r.0 {
                    Step::Ready(s) => s@ == v,
                    _ => false,
                },
                None => !r.1.is_finished() && r.1.answers().len() == 0 && r.0 == Step::Fetch(
                    first_query(kind),
                ),
            },
    {
        let cached = self.cache.get(kind.cache_key(), now);
        match cached {
            Some(v) => (
                Step::Ready(v),
                Computation {
                    kind,
                    received: 0,
                    remaining: 0,
                    finished: true,
                    answers: Ghost(Seq::empty()),
                },
            ),
            None => {
                let query = match kind {
                    SupplyKind::Total => Upstream::TotalSupply,
                    _ => Upstream::EffectiveSupply,
                };
                (
                    Step::Fetch(query),
                    Computation {
                        kind,
                        received: 0,
                        remaining: 0,
                        finished: false,
                        answers: Ghost(Seq::empty()),
                    },
                )
            },
        }
    }

    fn finish(&mut self, comp: &mut Computation, value: u128, now: u64) -> (r: Step)
        ensures
            final(self).native_token_spec() == old(self).native_token_spec(),
            final(self).addresses() == old(self).addresses(),
            final(self).cache_spec().ttl_spec() == old(self).cache_spec().ttl_spec(),
            final(self).cache_spec()@ == old(self).cache_spec()@.insert(
                old(comp).kind_spec().key_spec(),
                (decimal_chars(value as nat), now as int),
            ),
            match r {
                Step::Ready(s) => s@ == decimal_chars(value as nat),
                _ => false,
            },
            final(comp).is_finished(),
            final(comp).kind_spec() == old(comp).kind_spec(),
            final(comp).answers() == old(comp).answers(),
    {
        let s = to_string_native(value);
        self.cache.insert(comp.kind.cache_key(), s.clone(), now);
        comp.finished = true;
        Step::Ready(s)
    }

    /// Hands the service the answer to the query it asked for last (`None`
    /// when that query failed) and returns what comes next. A value is
    /// cached only when the whole request succeeds.
    pub fn resume(&mut self, comp: &mut Computation, answer: Option<u128>, now: u64) -> (r: Step)
        requires
            old(comp).wf(old(self).addresses().len() as int),
            !old(comp).is_finished(),
        ensures
            final(self).native_token_spec() == old(self).native_token_spec(),
            final(self).addresses() == old(self).addresses(),
            final(self).cache_spec().ttl_spec() == old(self).cache_spec().ttl_spec(),
            final(comp).wf(old(self).addresses().len() as int),
            final(comp).kind_spec() == old(comp).kind_spec(),
            match answer {
                None => {
                    &&& r == Step::Failed(ApiError::UpstreamUnavailable)
                    &&& final(comp).is_finished()
                    &&& final(self).cache_spec()@ == old(self).cache_spec()@
                },
                Some(x) => {
                    let kind = old(comp).kind_spec();
                    let answers = old(comp).answers().push(x as int);
                    &&& final(comp).answers() == answers
                    &&& match result_value(kind, answers) {
                        None => {
                            &&& r == Step::Failed(ApiError::InvariantViolation)
                            &&& final(comp).is_finished()
                            &&& final(self).cache_spec()@ == old(self).cache_spec()@
                        },
                        Some(v) => if is_complete(kind, answers, old(self).addresses().len() as int) {
                            &&& final(comp).is_finished()
                            &&& final(self).cache_spec()@ == old(self).cache_spec()@.insert(
                                kind.key_spec(),
                                (decimal_chars(v as nat), now as int),
                            )
                            &&& match r {
                                Step::Ready(s) => s@ == decimal_chars(v as nat),
                                _ => false,
                            }
                        } else {
                            &&& !final(comp).is_finished()
                            &&& final(self).cache_spec()@ == old(self).cache_spec()@
                            &&& match r {
                                Step::Fetch(Upstream::BalanceOf(a)) => a@ == old(
                                    self,
                                ).addresses()[answers.len() - 1]@,
                                _ => false,
                            }
                        },
                    }
                },
            },
    {
        let n = self.non_circulating.len();
        match answer {
            None => {
                comp.finished = true;
                Step::Failed(ApiError::UpstreamUnavailable)
            },
            Some(x) => {
                let ghost before = comp.answers@;
                let ghost answers = before.push(x as int);
                proof {
                    comp.answers = Ghost(answers);
                    assert(answers.drop_last() =~= before);
                }
                if comp.received == 0 {
                    comp.received = 1;
                    if comp.kind != SupplyKind::Circulating {
                        return self.finish(comp, x, now);
                    }
                    assert(answers.drop_first() =~= Seq::<int>::empty());
                    comp.remaining = x;
                    if n == 0 {
                        return self.finish(comp, x, now);
                    }
                } else {
                    proof {
                        assert(answers.drop_first() =~= before.drop_first().push(x as int));
                        assert(answers.drop_first().drop_last() =~= before.drop_first());
                        assert(answers[0] == before[0]);
                    }
                    if x > comp.remaining {
                        comp.finished = true;
                        return Step::Failed(ApiError::InvariantViolation);
                    }
                    comp.remaining = comp.remaining - x;
                    if comp.received == n {
                        let rest = comp.remaining;
                        return self.finish(comp, rest, now);
                    }
                    comp.received = comp.received + 1;
                }
                let address = self.non_circulating[comp.received - 1].clone();
                Step::Fetch(Upstream::BalanceOf(address))
            },
        }
    }

    /// Starts a request for the total supply of the native token.
    pub fn get_native_total_supply(&self, now: u64) -> (r: (Step, Computation))
        ensures
            r.1.kind_spec() == SupplyKind::Total,
            r.1.wf(self.addresses().len() as int),
            match self.cache_spec().live_value(SupplyKind::Total.key_spec(), now as int) {
                Some(v) => r.1.is_finished() && match r.0 {
                    Step::Ready(s) => s@ == v,
                    _ => false,
                },
                None => !r.1.is_finished() && r.1.answers().len() == 0 && r.0 == Step::Fetch(
                    Upstream::TotalSupply,
                ),
            },
    {
        self.begin(SupplyKind::Total, now)
    }

    /// Starts a request for the effective supply of the native token.
    pub fn get_effective_total_supply(&self, now: u64) -> (r: (Step, Computation))
        ensures
            r.1.kind_spec() == SupplyKind::Effective,
            r.1.wf(self.addresses().len() as int),
            match self.cache_spec().live_value(SupplyKind::Effective.key_spec(), now as int) {
                Some(v) => r.1.is_finished() && match r.0 {
                    Step::Ready(s) => s@ == v,
                    _ => false,
                },
                None => !r.1.is_finished() && r.1.answers().len() == 0 && r.0 == Step::Fetch(
                    Upstream::EffectiveSupply,
                ),
            },
    {
        self.begin(SupplyKind::Effective, now)
    }

    /// Starts a request for the circulating supply of the native token.
    pub fn get_circulating_supply(&self, now: u64) -> (r: (Step, Computation))
        ensures
            r.1.kind_spec() == SupplyKind::Circulating,
            r.1.wf(self.addresses().len() as int),
            match self.cache_spec().live_value(SupplyKind::Circulating.key_spec(), now as int) {
                Some(v) => r.1.is_finished() && match r.0 {
                    Step::Ready(s) => s@ == v,
                    _ => false,
                },
                None => !r.1.is_finished() && r.1.answers().len() == 0 && r.0 == Step::Fetch(
                    Upstream::EffectiveSupply,
                ),
            },
    {
        self.begin(SupplyKind::Circulating, now)
    }
}

/// Caching one kind of supply changes at no time what a request of another
/// kind finds in the cache: each entry expires on its own.
pub proof fn lemma_kinds_independent(
    before: Client,
    after: Client,
    written: SupplyKind,
    entry: (Seq<char>, int),
    other: SupplyKind,
    now: int,
)
    requires
        after.cache_spec()@ == before.cache_spec()@.insert(written.key_spec(), entry),
        after.cache_spec().ttl_spec() == before.cache_spec().ttl_spec(),
        written != other,
    ensures
        after.cache_spec().live_value(other.key_spec(), now) == before.cache_spec().live_value(
            other.key_spec(),
            now,
        ),
{
    lemma_keys_distinct(written, other);
    crate::cache::lemma_write_leaves_other_keys(
        before.cache_spec(),
        after.cache_spec(),
        written.key_spec(),
        entry,
        other.key_spec(),
        now,
    );
}

/// Two requests of one kind within the time to live of its cached value find
/// the same value, so both are answered without an upstream query.
pub proof fn lemma_same_answer_within_ttl(client: Client, kind: SupplyKind, first: int, second: int)
    requires
        client.cache_spec()@.contains_key(kind.key_spec()),
        client.cache_spec()@[kind.key_spec()].1 <= first <= second,
        second - client.cache_spec()@[kind.key_spec()].1 < client.cache_spec().ttl_spec(),
    ensures
        client.cache_spec().live_value(kind.key_spec(), first) == Some(
            client.cache_spec()@[kind.key_spec()].0,
        ),
        client.cache_spec().live_value(kind.key_spec(), first) == client.cache_spec().live_value(
            kind.key_spec(),
            second,
        ),
{
}

} // verus!

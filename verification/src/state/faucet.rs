//! Shared faucet state: configuration, the redemption ledger, and the
//! per-identity rate limiter.
//!
//! The rate limiter keeps, per requester identity, the time of the last
//! granted challenge request; a new request is granted only when the
//! configured interval has elapsed, and the check and the update happen
//! in one step.

use vstd::prelude::*;

use crate::app_state::AppState;
use crate::services::faucet::FaucetService;

verus! {

/// Whether a request at `now` is allowed given the last granted time:
/// no record always passes, otherwise the elapsed time must reach the
/// interval.
pub open spec fn rate_allows(last: Option<u64>, now: u64, min_interval: u64) -> bool {
    match last {
        Option::None => true,
        Option::Some(t) => now - t >= min_interval,
    }
}

/// The first record for `id`, scanning from the front.
pub open spec fn lookup_last(records: Seq<(String, u64)>, id: Seq<char>) -> Option<u64>
    decreases records.len(),
{
    if records.len() == 0 {
        Option::None
    } else if records[0].0@ == id {
        Option::Some(records[0].1)
    } else {
        lookup_last(records.drop_first(), id)
    }
}

/// When no record in the first `i` entries matches, the lookup is
/// decided by the remaining entries.
proof fn lemma_lookup_skip(records: Seq<(String, u64)>, id: Seq<char>, i: int)
    requires
        0 <= i <= records.len(),
        forall|j: int| 0 <= j < i ==> #[trigger] records[j].0@ != id,
    ensures
        lookup_last(records, id) == lookup_last(records.skip(i), id),
    decreases i,
{
    if i > 0 {
        assert(records.drop_first().skip(i - 1) =~= records.skip(i));
        lemma_lookup_skip(records.drop_first(), id, i - 1);
    } else {
        assert(records.skip(0) =~= records);
    }
}

/// Updating the entry at `i` in place, key unchanged, leaves every other
/// key's lookup unchanged.
proof fn lemma_lookup_update_other(
    s1: Seq<(String, u64)>,
    s2: Seq<(String, u64)>,
    i: int,
    k: Seq<char>,
)
    requires
        s1.len() == s2.len(),
        0 <= i < s1.len(),
        forall|j: int| 0 <= j < s1.len() && j != i ==> #[trigger] s1[j] == s2[j],
        s1[i].0@ == s2[i].0@,
        k != s1[i].0@,
    ensures
        lookup_last(s1, k) == lookup_last(s2, k),
    decreases s1.len(),
{
    if i == 0 {
        assert(s1.drop_first() =~= s2.drop_first());
    } else {
        assert(s1[0] == s2[0]);
        if s1[0].0@ != k {
            lemma_lookup_update_other(s1.drop_first(), s2.drop_first(), i - 1, k);
        }
    }
}

/// Appending a record only affects a key with no earlier record.
proof fn lemma_lookup_push(s: Seq<(String, u64)>, e: (String, u64), k: Seq<char>)
    ensures
        lookup_last(s.push(e), k) == (if lookup_last(s, k) is Some {
            lookup_last(s, k)
        } else if e.0@ == k {
            Option::Some(e.1)
        } else {
            Option::<u64>::None
        }),
    decreases s.len(),
{
    if s.len() == 0 {
        assert(s.push(e).len() == 1);
        assert(s.push(e)[0] == e);
        assert(s.push(e).drop_first() =~= Seq::<(String, u64)>::empty());
        assert(lookup_last(s, k) == Option::<u64>::None);
        if e.0@ == k {
            assert(lookup_last(s.push(e), k) == Option::Some(e.1));
        } else {
            assert(lookup_last(s.push(e).drop_first(), k) == Option::<u64>::None);
            assert(lookup_last(s.push(e), k) == Option::<u64>::None);
        }
    } else {
        assert(s.push(e)[0] == s[0]);
        assert(s.push(e).drop_first() =~= s.drop_first().push(e));
        lemma_lookup_push(s.drop_first(), e, k);
        if s[0].0@ == k {
            assert(lookup_last(s.push(e), k) == Option::Some(s[0].1));
            assert(lookup_last(s, k) == Option::Some(s[0].1));
        } else {
            assert(lookup_last(s.push(e), k) == lookup_last(s.drop_first().push(e), k));
            assert(lookup_last(s, k) == lookup_last(s.drop_first(), k));
        }
    }
}

/// Tracks the last granted challenge request per requester identity.
pub struct RateLimiter {
    records: Vec<(String, u64)>,
}

impl RateLimiter {
    /// The time of the last granted request of `id`, if any.
    pub closed spec fn spec_last_request(&self, id: Seq<char>) -> Option<u64> {
        lookup_last(self.records@, id)
    }

    /// A limiter with no records: every identity may request.
    pub fn new() -> (r: Self)
        ensures
            forall|k: Seq<char>| r.spec_last_request(k) is None,
    {
        RateLimiter { records: Vec::new() }
    }

    /// Grants a request at `now` exactly when the identity has no record
    /// or its last granted request is at least `min_interval` old; only
    /// a granted request updates the record. Identities never affect
    /// each other.
    pub fn allow(&mut self, identity: &String, now: u64, min_interval: u64) -> (r: bool)
        ensures
            r == rate_allows(old(self).spec_last_request(identity@), now, min_interval),
            r ==> final(self).spec_last_request(identity@) == Option::Some(now),
            !r ==> *final(self) == *old(self),
            forall|k: Seq<char>|
                k != identity@ ==> final(self).spec_last_request(k) == old(self).spec_last_request(
                    k,
                ),
    {
        let n = self.records.len();
        let mut i: usize = 0;
        while i < n
            invariant
                i <= n,
                n == self.records@.len(),
                *self == *old(self),
                forall|j: int| 0 <= j < i ==> #[trigger] self.records@[j].0@ != identity@,
            decreases n - i,
        {
            if self.records[i].0 == *identity {
                proof {
                    lemma_lookup_skip(self.records@, identity@, i as int);
                    assert(self.records@.skip(i as int)[0] == self.records@[i as int]);
                    assert(self.spec_last_request(identity@) == Option::Some(
                        self.records@[i as int].1,
                    ));
                }
                let last = self.records[i].1;
                if now >= last && now - last >= min_interval {
                    self.records.set(i, (identity.clone(), now));
                    proof {
                        lemma_lookup_skip(self.records@, identity@, i as int);
                        assert(self.records@.skip(i as int)[0] == self.records@[i as int]);
                        assert forall|k: Seq<char>| k != identity@ implies self.spec_last_request(k)
                            == old(self).spec_last_request(k) by {
                            lemma_lookup_update_other(
                                old(self).records@,
                                self.records@,
                                i as int,
                                k,
                            );
                        }
                    }
                    return true;
                } else {
                    return false;
                }
            }
            i = i + 1;
        }
        proof {
            lemma_lookup_skip(self.records@, identity@, n as int);
            assert(self.records@.skip(n as int) =~= Seq::<(String, u64)>::empty());
        }
        let entry = (identity.clone(), now);
        let ghost pushed = entry;
        self.records.push(entry);
        proof {
            assert forall|k: Seq<char>| true implies self.spec_last_request(k) == (if old(
                self,
            ).spec_last_request(k) is Some {
                old(self).spec_last_request(k)
            } else if identity@ == k {
                Option::Some(now)
            } else {
                Option::<u64>::None
            }) by {
                lemma_lookup_push(old(self).records@, pushed, k);
                assert(self.records@ =~= old(self).records@.push(pushed));
            }
        }
        true
    }
}

/// Law: after a granted request at `t1`, a second request from the same
/// identity is granted exactly when the elapsed time reaches the
/// configured interval — sooner, and it is refused.
pub proof fn lemma_rate_limit_interval(
    lim: RateLimiter,
    id: Seq<char>,
    t1: u64,
    t2: u64,
    min_interval: u64,
)
    requires
        lim.spec_last_request(id) == Option::Some(t1),
    ensures
        rate_allows(lim.spec_last_request(id), t2, min_interval) <==> t2 - t1 >= min_interval,
{
}

/// Everything a redemption decision reads or updates, in plain values:
/// the ledger-client handles and addresses stay with the embedding
/// application.
pub struct FaucetState {
    pub faucet_service: FaucetService,
    pub faucet_repo: AppState,
    pub auth_key: String,
    pub difficulty: u64,
    pub chain_id: String,
    pub chain_start: i64,
    pub withdraw_limit: u64,
    pub request_frequency: u64,
    pub last_requests: RateLimiter,
    pub webserver_host: String,
}

impl FaucetState {
    /// Fresh state: an empty redemption ledger, an empty rate limiter,
    /// and the given configuration.
    pub fn new(
        auth_key: String,
        difficulty: u64,
        chain_id: String,
        chain_start: i64,
        withdraw_limit: u64,
        webserver_host: String,
        request_frequency: u64,
    ) -> (r: Self)
        ensures
            r.auth_key == auth_key,
            r.difficulty == difficulty,
            r.chain_id == chain_id,
            r.chain_start == chain_start,
            r.withdraw_limit == withdraw_limit,
            r.webserver_host == webserver_host,
            r.request_frequency == request_frequency,
            r.faucet_repo@ == Set::<Seq<char>>::empty(),
            forall|k: Seq<char>| r.last_requests.spec_last_request(k) is None,
    {
        FaucetState {
            faucet_service: FaucetService::new(),
            faucet_repo: AppState::default(),
            auth_key,
            difficulty,
            chain_id,
            chain_start,
            withdraw_limit,
            request_frequency,
            last_requests: RateLimiter::new(),
            webserver_host,
        }
    }
}

} // verus!

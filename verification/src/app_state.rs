//! Shared redemption ledger: the set of challenge values that have
//! already been spent.
//!
//! `try_reserve` is the only gate a redemption may pass through: it
//! checks membership and inserts in one step, so a challenge can be
//! reserved at most once for the lifetime of the state.

use vstd::prelude::*;

verus! {

/// Whether some entry of `d` reads as the character sequence `c`.
pub open spec fn holds_value(d: Seq<String>, c: Seq<char>) -> bool {
    exists|i: int| 0 <= i < d.len() && #[trigger] d[i]@ == c
}

/// The set of challenge values already redeemed.
#[derive(Clone)]
pub struct AppState {
    data: Vec<String>,
}

impl View for AppState {
    type V = Set<Seq<char>>;

    closed spec fn view(&self) -> Set<Seq<char>> {
        Set::new(|c: Seq<char>| holds_value(self.data@, c))
    }
}

impl AppState {
    /// Records `value` as redeemed; a value already present stays present.
    pub fn add(&mut self, value: String)
        ensures
            final(self)@ == old(self)@.insert(value@),
    {
        self.data.push(value);
        proof {
            assert forall|c: Seq<char>| #[trigger] self@.contains(c) implies old(
                self,
            )@.insert(value@).contains(c) by {
                let i = choose|i: int| 0 <= i < self.data@.len() && #[trigger] self.data@[i]@ == c;
                if i < self.data@.len() - 1 {
                    assert(old(self).data@[i]@ == c);
                }
            }
            assert forall|c: Seq<char>| old(self)@.insert(value@).contains(c) implies #[trigger] self@.contains(
                c,
            ) by {
                if old(self)@.contains(c) {
                    let i = choose|i: int|
                        0 <= i < old(self).data@.len() && #[trigger] old(self).data@[i]@ == c;
                    assert(self.data@[i]@ == c);
                } else {
                    assert(self.data@[self.data@.len() - 1]@ == value@);
                }
            }
            assert(self@ =~= old(self)@.insert(value@));
        }
    }

    /// Whether `value` has already been redeemed.
    pub fn contains(&self, value: &String) -> (r: bool)
        ensures
            r == self@.contains(value@),
    {
        let n = self.data.len();
        let mut i: usize = 0;
        while i < n
            invariant
                i <= n,
                n == self.data@.len(),
                forall|j: int| 0 <= j < i ==> #[trigger] self.data@[j]@ != value@,
            decreases n - i,
        {
            if self.data[i] == *value {
                return true;
            }
            i = i + 1;
        }
        false
    }

    /// Atomically checks and records `value`: returns true exactly when the
    /// value was absent, in which case this caller has won the reservation.
    /// After the call the value is present either way.
    pub fn try_reserve(&mut self, value: &String) -> (won: bool)
        ensures
            won == !old(self)@.contains(value@),
            final(self)@ == old(self)@.insert(value@),
    {
        if self.contains(value) {
            proof {
                assert(self@ =~= self@.insert(value@));
            }
            false
        } else {
            self.add(value.clone());
            true
        }
    }
}

impl Default for AppState {
    /// An empty ledger: no challenge is redeemed yet.
    fn default() -> (r: Self)
        ensures
            r@ == Set::<Seq<char>>::empty(),
    {
        let r = AppState { data: Vec::new() };
        proof {
            assert(r@ =~= Set::<Seq<char>>::empty());
        }
        r
    }
}

/// Every ledger state after the first reservation step holds the challenge.
proof fn lemma_reserved_stays(sets: Seq<Set<Seq<char>>>, c: Seq<char>, i: int)
    requires
        forall|k: int| 0 <= k < sets.len() - 1 ==> #[trigger] sets[k + 1] == sets[k].insert(c),
        1 <= i < sets.len(),
    ensures
        sets[i].contains(c),
    decreases i,
{
    if i > 1 {
        lemma_reserved_stays(sets, c, i - 1);
    }
    assert(sets[(i - 1) + 1] == sets[i - 1].insert(c));
}

/// Law: when any number of reservation attempts for the same challenge are
/// serialized against a ledger that does not yet hold it — each attempt
/// seeing the state its predecessors left, as `try_reserve` ensures —
/// exactly one attempt wins: the first. All later attempts observe the
/// challenge as already reserved.
pub proof fn lemma_reserve_exactly_once(sets: Seq<Set<Seq<char>>>, results: Seq<bool>, c: Seq<char>)
    requires
        sets.len() == results.len() + 1,
        results.len() > 0,
        !sets[0].contains(c),
        forall|i: int| 0 <= i < results.len() ==> #[trigger] results[i] == !sets[i].contains(c),
        forall|i: int| 0 <= i < results.len() ==> #[trigger] sets[i + 1] == sets[i].insert(c),
    ensures
        results[0],
        forall|i: int| 1 <= i < results.len() ==> !(#[trigger] results[i]),
{
    assert forall|i: int| 1 <= i < results.len() implies !(#[trigger] results[i]) by {
        assert(forall|k: int| 0 <= k < sets.len() - 1 ==> #[trigger] sets[k + 1] == sets[k].insert(
            c,
        ));
        lemma_reserved_stays(sets, c, i);
    }
}

} // verus!

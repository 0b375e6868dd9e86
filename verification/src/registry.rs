//! The registry of in-flight rounds. A key is present exactly while an
//! execution for it is running: between the leader's claim and the leader's
//! retire. The registry atomically classifies each caller as leader or
//! follower and keeps the duplicate count of every round; its mathematical
//! model is the map from each in-flight key to that count.

use vstd::prelude::*;
use vstd::assert_maps_equal;
use vstd::map::*;
use crossbeam::channel::Receiver;
use crossbeam::channel::Sender;
use crate::chan::channel_unbounded;
use crate::chan::clone_receiver;
use crate::outcome::RoundMsg;

verus! {

/// One in-flight call record: the duplicate count of the round together with
/// the round's delivery channel. The channel is written once per follower
/// when the round completes; each follower holds its own cloned receiving
/// half, so the channel outlives the record's removal from the registry.
#[verifier::reject_recursive_types(T)]
pub struct Call<T> {
    /// How many followers have joined this round so far. The leader alone
    /// counts zero.
    pub dup: usize,
    /// Sending half of the round's delivery channel, used by the leader.
    pub tx: Sender<RoundMsg<T>>,
    /// Receiving half of the round's delivery channel, cloned once for each
    /// follower that joins.
    pub rx: Receiver<RoundMsg<T>>,
}

impl<T> Call<T> {
    /// A fresh record for a new round: no follower yet, and a new unbounded
    /// channel so that the fan-out never blocks on a full buffer.
    pub fn new() -> (c: Call<T>)
        ensures
            c.dup == 0,
    {
        let (tx, rx) = channel_unbounded::<RoundMsg<T>>();
        Call { dup: 0, tx, rx }
    }
}

/// How a caller was classified for a key, under one atomic consultation of
/// the registry.
#[verifier::reject_recursive_types(T)]
pub enum Role<T> {
    /// No round was in flight: the caller must run the work and then retire
    /// the record it claimed.
    Leader,
    /// A round was in flight: the caller holds a receiving half of that
    /// round's channel and must wait on it for the round's outcome.
    Follower(Receiver<RoundMsg<T>>),
}

/// A duplicate count after one more follower joined. The count sticks at its
/// machine bound, which no real population of threads can reach.
pub open spec fn bumped(n: nat) -> nat {
    if n < usize::MAX as nat {
        n + 1
    } else {
        n
    }
}

#[verifier::reject_recursive_types(T)]
struct Entry<T> {
    key: String,
    call: Call<T>,
}

/// The mapping from key to in-flight call record, kept as a vector of
/// entries with pairwise distinct keys.
#[verifier::reject_recursive_types(T)]
pub struct Registry<T> {
    entries: Vec<Entry<T>>,
}

impl<T> View for Registry<T> {
    type V = Map<Seq<char>, nat>;

    /// The model: each in-flight key, bound to its duplicate count.
    closed spec fn view(&self) -> Map<Seq<char>, nat> {
        Map::new(|k: Seq<char>| self.in_flight(k), |k: Seq<char>| self.count_at(k))
    }
}

impl<T> Registry<T> {
    /// Well-formed: no key occurs twice.
    pub closed spec fn wf(self) -> bool {
        forall|i: int, j: int|
            0 <= i < j < self.entries@.len() ==> self.entries@[i].key@ != self.entries@[j].key@
    }

    /// Whether a round for `k` is in flight.
    pub closed spec fn in_flight(self, k: Seq<char>) -> bool {
        exists|i: int| 0 <= i < self.entries@.len() && self.entries@[i].key@ == k
    }

    closed spec fn idx_of(self, k: Seq<char>) -> int {
        choose|i: int| 0 <= i < self.entries@.len() && self.entries@[i].key@ == k
    }

    closed spec fn count_at(self, k: Seq<char>) -> nat {
        self.entries@[self.idx_of(k)].call.dup as nat
    }

    /// The entry at a valid index is the one binding of its key in the model.
    proof fn lemma_entry_is_binding(self, i: int)
        requires
            self.wf(),
            0 <= i < self.entries@.len(),
        ensures
            self@.contains_key(self.entries@[i].key@),
            self@[self.entries@[i].key@] == self.entries@[i].call.dup as nat,
            self.idx_of(self.entries@[i].key@) == i,
    {
        let k = self.entries@[i].key@;
        assert(self.in_flight(k));
        let j = self.idx_of(k);
        assert(0 <= j < self.entries@.len() && self.entries@[j].key@ == k);
        if i < j {
            assert(self.entries@[i].key@ != self.entries@[j].key@);
        } else if j < i {
            assert(self.entries@[j].key@ != self.entries@[i].key@);
        }
    }

    /// An empty registry: no round in flight, for no key.
    pub fn new() -> (rg: Registry<T>)
        ensures
            rg.wf(),
            rg@ == Map::<Seq<char>, nat>::empty(),
    {
        let rg = Registry { entries: Vec::new() };
        proof {
            assert_maps_equal!(rg@, Map::<Seq<char>, nat>::empty(), k => {
                assert(!rg.in_flight(k));
            });
        }
        rg
    }

    /// Finds the index of the entry for `key`, if a round for it is in
    /// flight.
    fn find(&self, key: &String) -> (r: Option<usize>)
        requires
            self.wf(),
        ensures
            match r {
                Some(i) => i < self.entries@.len() && self.entries@[i as int].key@ == key@,
                None => !self.in_flight(key@),
            },
    {
        let n = self.entries.len();
        let mut i: usize = 0;
        while i < n
            invariant
                n == self.entries@.len(),
                i <= n,
                forall|j: int| 0 <= j < i ==> self.entries@[j].key@ != key@,
            decreases n - i,
        {
            if self.entries[i].key == *key {
                return Some(i);
            }
            i += 1;
        }
        None
    }

    /// Atomically classifies a caller for `key`, as the contract of the
    /// registry demands: if no round for `key` is in flight, a fresh record
    /// with duplicate count zero is installed and the caller is the leader;
    /// otherwise the round's duplicate count grows by one and the caller is
    /// a follower holding its own receiving half of the round's channel.
    /// Every other key's round is left exactly as it was.
    pub fn claim_or_join(&mut self, key: &String) -> (r: Role<T>)
        requires
            old(self).wf(),
        ensures
            final(self).wf(),
            match r {
                Role::Leader => !old(self)@.contains_key(key@) && final(self)@ == old(self)@.insert(
                    key@,
                    0,
                ),
                Role::Follower(_) => old(self)@.contains_key(key@) && final(self)@ == old(
                    self,
                )@.insert(key@, bumped(old(self)@[key@])),
            },
    {
        match self.find(key) {
            Some(i) => {
                proof {
                    self.lemma_entry_is_binding(i as int);
                }
                let ghost prior = *self;
                let handle = clone_receiver(&self.entries[i].call.rx);
                let dup = self.entries[i].call.dup;
                let new_dup = if dup < usize::MAX {
                    dup + 1
                } else {
                    dup
                };
                self.set_dup(i, new_dup);
                proof {
                    assert(forall|j: int|
                        0 <= j < prior.entries@.len() ==> self.entries@[j].key@
                            == prior.entries@[j].key@);
                    assert_maps_equal!(self@, prior@.insert(key@, bumped(prior@[key@])), k => {
                        if self.in_flight(k) {
                            let j = choose|j: int|
                                0 <= j < self.entries@.len() && self.entries@[j].key@ == k;
                            assert(prior.entries@[j].key@ == k);
                            assert(prior.in_flight(k));
                            self.lemma_entry_is_binding(j);
                            prior.lemma_entry_is_binding(j);
                        }
                        if prior.in_flight(k) {
                            let j = choose|j: int|
                                0 <= j < prior.entries@.len() && prior.entries@[j].key@ == k;
                            assert(self.entries@[j].key@ == k);
                            assert(self.in_flight(k));
                        }
                    });
                }
                Role::Follower(handle)
            },
            None => {
                let ghost prior = *self;
                let record = Call::new();
                self.entries.push(Entry { key: key.clone(), call: record });
                proof {
                    let n = prior.entries@.len();
                    assert(self.entries@.len() == n + 1);
                    assert(self.entries@[n as int].key@ == key@);
                    assert(forall|j: int|
                        0 <= j < n ==> self.entries@[j].key@ == prior.entries@[j].key@);
                    assert(forall|j: int| 0 <= j < n ==> self.entries@[j].key@ != key@);
                    assert(self.wf());
                    assert_maps_equal!(self@, prior@.insert(key@, 0), k => {
                        if self.in_flight(k) {
                            let j = choose|j: int|
                                0 <= j < self.entries@.len() && self.entries@[j].key@ == k;
                            self.lemma_entry_is_binding(j);
                            if j < n {
                                prior.lemma_entry_is_binding(j);
                            }
                        }
                        if prior.in_flight(k) {
                            let j = choose|j: int|
                                0 <= j < prior.entries@.len() && prior.entries@[j].key@ == k;
                            assert(self.entries@[j].key@ == k);
                            assert(self.in_flight(k));
                        }
                        if k == key@ {
                            assert(self.in_flight(k));
                        }
                    });
                }
                Role::Leader
            },
        }
    }

    /// Writes a new duplicate count into the entry at `i`, leaving every
    /// entry's key and channel as they were.
    fn set_dup(&mut self, i: usize, new_dup: usize)
        requires
            i < old(self).entries@.len(),
        ensures
            final(self).entries@.len() == old(self).entries@.len(),
            final(self).entries@[i as int].key == old(self).entries@[i as int].key,
            final(self).entries@[i as int].call.dup == new_dup,
            final(self).entries@[i as int].call.tx == old(self).entries@[i as int].call.tx,
            final(self).entries@[i as int].call.rx == old(self).entries@[i as int].call.rx,
            forall|j: int|
                0 <= j < old(self).entries@.len() && j != i ==> final(self).entries@[j] == old(
                    self,
                ).entries@[j],
    {
        let entry = &mut self.entries[i];
        entry.call.dup = new_dup;
    }

    /// Removes and returns the record for `key`: the leader's retire step,
    /// taken after its work completed and before it broadcasts. It yields
    /// the record exactly when a round for `key` is in flight — under the
    /// claim/retire discipline, always — and afterwards the key is free, so
    /// the next caller for it starts a fresh round. Every other key's round
    /// is left exactly as it was.
    pub fn retire(&mut self, key: &String) -> (r: Option<Call<T>>)
        requires
            old(self).wf(),
        ensures
            final(self).wf(),
            match r {
                Some(c) => old(self)@.contains_key(key@) && c.dup as nat == old(self)@[key@]
                    && final(self)@ == old(self)@.remove(key@),
                None => !old(self)@.contains_key(key@) && *final(self) == *old(self),
            },
    {
        match self.find(key) {
            Some(i) => {
                proof {
                    self.lemma_entry_is_binding(i as int);
                }
                let ghost prior = *self;
                let entry = self.entries.remove(i);
                proof {
                    let n = prior.entries@.len();
                    assert(self.entries@ == prior.entries@.remove(i as int));
                    assert(forall|j: int|
                        0 <= j < n - 1 ==> self.entries@[j] == (if j < i as int {
                            prior.entries@[j]
                        } else {
                            prior.entries@[j + 1]
                        }));
                    assert(self.wf());
                    assert_maps_equal!(self@, prior@.remove(key@), k => {
                        if self.in_flight(k) {
                            let j = choose|j: int|
                                0 <= j < self.entries@.len() && self.entries@[j].key@ == k;
                            self.lemma_entry_is_binding(j);
                            if j < i as int {
                                prior.lemma_entry_is_binding(j);
                            } else {
                                prior.lemma_entry_is_binding(j + 1);
                            }
                        }
                        if prior.in_flight(k) && k != key@ {
                            let j = choose|j: int|
                                0 <= j < prior.entries@.len() && prior.entries@[j].key@ == k;
                            prior.lemma_entry_is_binding(j);
                            if j < i as int {
                                assert(self.entries@[j].key@ == k);
                            } else {
                                assert(self.entries@[j - 1].key@ == k);
                            }
                            assert(self.in_flight(k));
                        }
                    });
                }
                Some(entry.call)
            },
            None => None,
        }
    }
}

/// Law: a lone invocation is unshared. A leader that claims a key no round
/// holds installs it with duplicate count zero; if nobody joins before it
/// retires, it retires that zero count, and an outcome fanned out for a zero
/// count is an unshared success.
pub proof fn law_lone_round_unshared(m: Map<Seq<char>, nat>, k: Seq<char>)
    requires
        !m.contains_key(k),
    ensures
        m.insert(k, 0).contains_key(k),
        m.insert(k, 0)[k] == 0,
{
}

/// Law: a joined round is shared. However many followers a round for `k`
/// already has, one more join leaves the count positive, so the outcome the
/// leader fans out and returns is marked shared.
pub proof fn law_joined_round_shared(m: Map<Seq<char>, nat>, k: Seq<char>)
    requires
        m.contains_key(k),
    ensures
        m.insert(k, bumped(m[k]))[k] > 0,
{
}

/// Law: a finished round leaves no trace. Once a key is retired from a
/// registry model, the model no longer holds the key, so the next caller for
/// it is classified a leader and triggers fresh execution — results are
/// never cached across rounds.
pub proof fn law_retire_forgets(m: Map<Seq<char>, nat>, k: Seq<char>)
    ensures
        !m.remove(k).contains_key(k),
{
}

/// Law: rounds for distinct keys are independent. Claiming, joining or
/// retiring a round for one key neither adds, removes nor recounts the round
/// of any other key in the registry model.
pub proof fn law_keys_independent(m: Map<Seq<char>, nat>, k1: Seq<char>, k2: Seq<char>, n: nat)
    requires
        k1 != k2,
    ensures
        m.insert(k1, n).contains_key(k2) == m.contains_key(k2),
        m.contains_key(k2) ==> m.insert(k1, n)[k2] == m[k2],
        m.remove(k1).contains_key(k2) == m.contains_key(k2),
        m.contains_key(k2) ==> m.remove(k1)[k2] == m[k2],
{
}

} // verus!

//! The coalescing engine. A [`Group`] represents a class of work in which
//! units of work can be executed with duplicate suppression: the registry of
//! in-flight rounds sits behind one lock, held only for the O(1) claim, join
//! and retire steps and never across the work or a blocking wait.

use vstd::prelude::*;
use vstd::*;
use vstd::rwlock::RwLock;
use vstd::rwlock::RwLockPredicate;
use std::sync::Arc;
use core::marker::PhantomData;
use crossbeam::channel::Receiver;
use crossbeam::channel::Sender;
use crate::chan::channel_bounded_one;
use crate::chan::channel_recv;
use crate::chan::channel_send;
use crate::outcome::follower_delivery;
use crate::outcome::round_message;
use crate::outcome::Delivery;
use crate::outcome::Failure;
use crate::outcome::RoundMsg;
use crate::registry::Registry;
use crate::registry::Role;

verus! {

/// The one invariant the registry lock maintains: whatever value is stored,
/// it is a well-formed registry (no key held twice).
pub struct RegistryInv<T> {
    marker: PhantomData<T>,
}

impl<T> RwLockPredicate<Registry<T>> for RegistryInv<T> {
    open spec fn inv(self, rg: Registry<T>) -> bool {
        rg.wf()
    }
}

/// How a textual description `d` may describe the work's error `e`: exactly
/// as `e` displays itself.
pub open spec fn describes(e: anyhow::Error, d: String) -> bool {
    vstd::string::to_string_from_display_ensures::<anyhow::Error>(&e, d)
}

/// A group of units of work executed with duplicate suppression: at most one
/// execution per key is in flight at a time, and callers that ask for a key
/// while its execution is in flight receive that execution's outcome.
#[verifier::reject_recursive_types(T)]
pub struct Group<T: Default + Clone + Send> {
    registry: Arc<RwLock<Registry<T>, RegistryInv<T>>>,
}

impl<T: Default + Clone + Send> Group<T> {
    /// A fresh, independent group with no round in flight.
    pub fn new() -> Group<T> {
        let rg = Registry::new();
        Group {
            registry: Arc::new(
                RwLock::new(rg, Ghost(RegistryInv { marker: PhantomData })),
            ),
        }
    }

    /// Relies on Arc::clone of the standard library: a further handle to the
    /// very same registry lock, for a task that outlives this call.
    #[verifier::external_body]
    fn registry_handle(&self) -> (h: Arc<RwLock<Registry<T>, RegistryInv<T>>>)
        ensures
            h == self.registry,
    {
        self.registry.clone()
    }

    /// Computes the round's outcome from the work's result and the final
    /// duplicate count, and pushes one message onto the round's channel for
    /// each of the `dup` followers; the caller (the round's leader) gets the
    /// outcome back directly. A success carries the work's value, marked
    /// shared exactly when at least one follower joined; a failure carries
    /// the text of the work's error, the same text for every recipient.
    pub fn fan_out(work: Result<T, anyhow::Error>, dup: usize, tx: &Sender<RoundMsg<T>>) -> (r:
        Delivery<T>)
        ensures
            (work matches Ok(v) ==> r == Result::<(T, bool), Failure>::Ok((v, dup > 0))),
            (work matches Err(e) ==> r matches Err(f) && f matches Failure::Work(d) && describes(
                e,
                d,
            )),
    {
        let descr: String = match &work {
            Ok(_) => String::new(),
            Err(e) => e.to_string(),
        };
        let mut i: usize = 0;
        while i < dup
            invariant
                i <= dup,
            decreases dup - i,
        {
            let m: RoundMsg<T> = match &work {
                Ok(v) => round_message(Some(v), &descr),
                Err(_) => round_message(None, &descr),
            };
            let _delivered = channel_send(tx, m);
            i += 1;
        }
        match work {
            Ok(v) => Ok((v, dup > 0)),
            Err(_) => Err(Failure::Work(descr)),
        }
    }

    /// The leader's tail of a round: retire the key's record under the lock,
    /// then fan the outcome out to every follower that joined, and return
    /// it. If the registry no longer tracked the key — impossible under the
    /// claim/retire discipline — the broken invariant is reported as such.
    fn finish(
        reg: &Arc<RwLock<Registry<T>, RegistryInv<T>>>,
        key: &String,
        work: Result<T, anyhow::Error>,
    ) -> (r: Delivery<T>)
        ensures
            (r matches Ok(p) ==> work matches Ok(v) && p.0 == v),
            (work matches Err(_) ==> r matches Err(_)),
            (r matches Err(f) ==> f is Broken || (work matches Err(e) && f matches Failure::Work(
                d,
            ) && describes(e, d))),
    {
        let (mut rg, wh) = reg.acquire_write();
        let retired = rg.retire(key);
        wh.release_write(rg);
        match retired {
            Some(record) => Self::fan_out(work, record.dup, &record.tx),
            None => Err(Failure::Broken),
        }
    }

    /// Executes and returns the result of the given work, making sure that
    /// only one execution is in flight for the key at a time. If a duplicate
    /// call comes in while one is in flight, the duplicate caller waits for
    /// the original to complete and receives the same outcome. The flag of a
    /// successful result says whether the value was given to multiple
    /// callers; in particular, a result marked unshared is always the value
    /// this very call computed with `func`.
    pub fn go<F: Fn() -> Result<T, anyhow::Error>>(&self, key: &str, func: F) -> (r: Delivery<T>)
        requires
            call_requires(func, ()),
        ensures
            (r matches Ok(p) ==> p.1 || call_ensures(
                func,
                (),
                Result::<T, anyhow::Error>::Ok(p.0),
            )),
    {
        let k: String = key.to_owned();
        let (mut rg, wh) = self.registry.acquire_write();
        let role = rg.claim_or_join(&k);
        wh.release_write(rg);
        match role {
            Role::Follower(handle) => {
                match channel_recv(&handle) {
                    Some(m) => follower_delivery(m),
                    None => Err(Failure::Broken),
                }
            },
            Role::Leader => {
                let work = func();
                Self::finish(&self.registry, &k, work)
            },
        }
    }

    /// Like [`Self::go`], but returns at once a channel that will receive
    /// the outcome when it is ready, instead of blocking the caller: the
    /// work of a leading call, and the wait of a duplicate call, both run on
    /// a task of their own. The returned channel yields exactly one
    /// delivery for this call.
    pub fn go_chan<F>(&self, key: &str, func: F) -> (r: Receiver<Delivery<T>>) where
        F: Fn() -> Result<T, anyhow::Error> + Send + 'static,
        T: 'static,

        requires
            call_requires(func, ()),
    {
        let k: String = key.to_owned();
        let (mut rg, wh) = self.registry.acquire_write();
        let role = rg.claim_or_join(&k);
        wh.release_write(rg);
        let (dtx, drx) = channel_bounded_one::<Delivery<T>>();
        match role {
            Role::Follower(handle) => {
                thread::spawn(
                    move ||
                        {
                            let d: Delivery<T> = match channel_recv(&handle) {
                                Some(m) => follower_delivery(m),
                                None => Err(Failure::Broken),
                            };
                            let _delivered = channel_send(&dtx, d);
                        },
                );
            },
            Role::Leader => {
                let reg = self.registry_handle();
                thread::spawn(
                    move ||
                        {
                            let work = func();
                            let d: Delivery<T> = Self::finish(&reg, &k, work);
                            let _delivered = channel_send(&dtx, d);
                        },
                );
            },
        }
        drx
    }
}

impl<T: Default + Clone + Send> Default for Group<T> {
    /// A fresh group, as [`Group::new`] gives it.
    fn default() -> Group<T> {
        Group::new()
    }
}

} // verus!

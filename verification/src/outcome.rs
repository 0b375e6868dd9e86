//! Outcomes of one coalesced round: what the leader computes, what is fanned
//! out to the followers, and what every caller finally receives.

use vstd::prelude::*;

verus! {

/// The error type anyhow::Error of the caller-supplied unit of work, declared
/// so that a work result can pass through verified code. The engine never
/// interprets such an error; it only turns it into text for delivery.
#[verifier::external_type_specification]
#[verifier::external_body]
pub struct ExAnyhowError(anyhow::Error);

/// A failure reported to a caller of a round.
#[derive(Debug, PartialEq, Eq)]
pub enum Failure {
    /// The caller-supplied unit of work failed; carries the textual
    /// description of the underlying error. The structured error value is
    /// not preserved past the delivery boundary.
    Work(String),
    /// The claim/retire/broadcast discipline was broken: the registry no
    /// longer tracked a key it should have, or a delivery channel was closed
    /// before a registered recipient received its message. This is a defect,
    /// never an ordinary runtime condition, and is reported as its own
    /// variant so that it can never be mistaken for a failure of the work.
    Broken,
}

/// What a caller receives for one round: on success the work's value together
/// with the flag saying whether the value was given to multiple callers, and
/// otherwise a [`Failure`].
pub type Delivery<T> = Result<(T, bool), Failure>;

/// One message fanned out from the leader of a round to a follower. A
/// follower only ever exists when it joined an in-flight round, so a
/// successful message needs no flag: the round was shared by construction.
pub enum RoundMsg<T> {
    /// The work succeeded; carries (a clone of) its value.
    SharedValue(T),
    /// The work failed; carries the textual description of the error.
    Failed(String),
}

/// How a message `m` may represent a round whose work produced `value`
/// (`None` meaning the work failed) and whose failure text is `descr`.
pub open spec fn message_for<T: Clone>(value: Option<T>, descr: Seq<char>, m: RoundMsg<T>) -> bool {
    match m {
        RoundMsg::SharedValue(w) => value matches Some(v) && cloned(v, w),
        RoundMsg::Failed(d) => value is None && d@ == descr,
    }
}

/// How a delivery `r` is obtained from a received message `m`.
pub open spec fn delivery_from<T>(m: RoundMsg<T>, r: Delivery<T>) -> bool {
    match m {
        RoundMsg::SharedValue(w) => r == Result::<(T, bool), Failure>::Ok((w, true)),
        RoundMsg::Failed(d) => r == Result::<(T, bool), Failure>::Err(Failure::Work(d)),
    }
}

/// Builds the message fanned out to one follower: a clone of the work's
/// value, or the round's failure text.
pub fn round_message<T: Clone>(value: Option<&T>, descr: &String) -> (m: RoundMsg<T>)
    ensures
        match value {
            Some(v) => message_for(Some(*v), descr@, m),
            None => message_for(None::<T>, descr@, m),
        },
{
    match value {
        Some(v) => RoundMsg::SharedValue(v.clone()),
        None => RoundMsg::Failed(descr.clone()),
    }
}

/// Turns the message a follower received into the delivery it returns: a
/// success is always marked shared, and a failure of the work is reported as
/// exactly that.
pub fn follower_delivery<T>(m: RoundMsg<T>) -> (r: Delivery<T>)
    ensures
        delivery_from(m, r),
{
    match m {
        RoundMsg::SharedValue(v) => Ok((v, true)),
        RoundMsg::Failed(d) => Err(Failure::Work(d)),
    }
}

/// Law: round trip of a successful round. Whatever message stands for a
/// round whose work returned `v`, the delivery a follower obtains from it is
/// a success whose payload is (a clone of) `v`, and it is marked shared.
pub proof fn law_success_round_trip<T: Clone>(v: T, descr: Seq<char>, m: RoundMsg<T>, r: Delivery<T>)
    requires
        message_for(Some(v), descr, m),
        delivery_from(m, r),
    ensures
        r matches Ok(p) && cloned(v, p.0) && p.1 == true,
{
}

/// Law: failure delivery is idempotent. Whatever message stands for a round
/// whose work failed with text `descr`, the delivery a follower obtains from
/// it is a failure of the work carrying exactly that text, never a success.
pub proof fn law_failure_never_success<T: Clone>(descr: Seq<char>, m: RoundMsg<T>, r: Delivery<T>)
    requires
        message_for(None::<T>, descr, m),
        delivery_from(m, r),
    ensures
        r matches Err(f) && f matches Failure::Work(d) && d@ == descr,
{
}

/// Law: a follower never observes an unshared success. Every successful
/// delivery obtained from a round message carries the shared flag.
pub proof fn law_followers_see_shared<T>(m: RoundMsg<T>, r: Delivery<T>)
    requires
        delivery_from(m, r),
    ensures
        r matches Ok(p) ==> p.1 == true,
{
}

} // verus!

//! The wire form of a deadline.
//!
//! A deadline is an absolute reading of the sender's clock, which means
//! nothing on another machine. It travels as the time that is left, measured
//! by the sender when it encodes, and becomes absolute again on the
//! receiver's own clock when it decodes. The two clocks never have to agree:
//! only the time spent in between moves the deadline.

use crate::time::max_nanos;
use crate::time::AbsoluteTime;
use crate::time::Clock;
use crate::time::RelativeTime;
use vstd::prelude::*;

verus! {

/// The time left until `deadline` when the clock shows `now`, in
/// nanoseconds: nothing where the deadline has passed.
pub open spec fn encode_spec(deadline: nat, now: nat) -> nat {
    if deadline >= now {
        (deadline - now) as nat
    } else {
        0
    }
}

/// The reading that lies `remaining` nanoseconds after `now`.
pub open spec fn decode_spec(remaining: nat, now: nat) -> nat {
    now + remaining
}

/// The time that is left until `deadline` at the reading `now`.
pub fn encode(deadline: AbsoluteTime, now: AbsoluteTime) -> (remaining: RelativeTime)
    ensures
        remaining.wf(),
        remaining@ == encode_spec(deadline@, now@),
{
    deadline.saturating_since(now)
}

/// The deadline that lies `remaining` after the reading `now`; `None` where
/// it lies beyond the last reading that can be represented.
pub fn decode(remaining: RelativeTime, now: AbsoluteTime) -> (deadline: Option<AbsoluteTime>)
    ensures
        deadline.is_some() <==> decode_spec(remaining@, now@) <= max_nanos(),
        deadline matches Some(d) ==> d.wf() && d@ == decode_spec(remaining@, now@),
{
    now.checked_add(remaining)
}

/// Encodes `deadline` against the present reading of `clock`. Whatever the
/// clock shows, the time left is no longer than the deadline's distance from
/// the clock's origin, and it is the whole of that distance only while the
/// clock still shows its origin.
pub fn serialize(deadline: &AbsoluteTime, clock: &Clock) -> (remaining: RelativeTime)
    ensures
        remaining.wf(),
        remaining@ <= deadline@,
{
    let now = clock.now();
    encode(*deadline, now)
}

/// Decodes `remaining` against the present reading of `clock`. Whatever the
/// clock shows, a deadline that comes back lies at least `remaining` after
/// the clock's origin, and a span of no time at all always decodes.
pub fn deserialize(remaining: RelativeTime, clock: &Clock) -> (deadline: Option<AbsoluteTime>)
    ensures
        deadline matches Some(d) ==> d.wf() && d@ >= remaining@,
        remaining@ == 0 ==> deadline.is_some(),
{
    let now = clock.now();
    proof {
        now.lemma_bounded();
    }
    decode(remaining, now)
}

/// A deadline that is encoded at `now` and decoded once `elapsed` has passed
/// on the same clock lies exactly `elapsed` away from the deadline that was
/// sent: the time in transit is added to it, and nothing else. A deadline
/// that had passed already when it was encoded decodes to the moment of
/// decoding.
pub proof fn lemma_round_trip(deadline: AbsoluteTime, now: AbsoluteTime, elapsed: RelativeTime)
    requires
        deadline.wf(),
        now.wf(),
        elapsed.wf(),
        elapsed@ > 0,
    ensures
        deadline@ >= now@ ==> decode_spec(encode_spec(deadline@, now@), now@ + elapsed@)
            == deadline@ + elapsed@,
        deadline@ >= now@ ==> decode_spec(encode_spec(deadline@, now@), now@ + elapsed@)
            - deadline@ == elapsed@,
        deadline@ < now@ ==> decode_spec(encode_spec(deadline@, now@), now@ + elapsed@) == now@
            + elapsed@,
{
}

/// The time left survives the crossing whatever the two clocks show: the
/// sender may read its clock `sender_skew` off and the receiver may decode
/// at any reading of its own, and the receiver still has the time left that
/// the sender had.
pub proof fn lemma_skew_is_harmless(
    deadline: AbsoluteTime,
    now: AbsoluteTime,
    sender_skew: nat,
    receiver_now: AbsoluteTime,
)
    requires
        deadline.wf(),
        now.wf(),
        receiver_now.wf(),
    ensures
        encode_spec(deadline@ + sender_skew, now@ + sender_skew) == encode_spec(deadline@, now@),
        encode_spec(decode_spec(encode_spec(deadline@, now@), receiver_now@), receiver_now@)
            == encode_spec(deadline@, now@),
{
}

/// Decoding never yields a deadline before the moment of decoding, so that a
/// span of no time at all still decodes to a deadline, one that has just
/// been reached.
pub proof fn lemma_decoded_is_not_before_now(remaining: RelativeTime, now: AbsoluteTime)
    requires
        remaining.wf(),
        now.wf(),
    ensures
        decode_spec(remaining@, now@) >= now@,
        remaining@ == 0 ==> decode_spec(remaining@, now@) == now@,
{
}

} // verus!

//! Durations written as a whole, non-negative number of seconds.

use vstd::prelude::*;

verus! {

/// The largest number of seconds that a duration can hold: the number of
/// whole seconds in `i64::MAX` milliseconds.
pub const MAX_SECONDS: u64 = 9_223_372_036_854_775;

/// A duration of a whole number of seconds between zero and
/// [`MAX_SECONDS`].
#[derive(Clone, Copy, Debug, PartialEq, Eq, Structural)]
pub struct PositiveSeconds {
    seconds: i64,
}

impl View for PositiveSeconds {
    type V = int;

    closed spec fn view(&self) -> int {
        self.seconds as int
    }
}

/// A number of seconds that no duration can hold.
#[derive(Clone, Copy, Debug, PartialEq, Eq, Structural)]
pub struct OutOfRange {
    pub found: u64,
}

impl OutOfRange {
    /// What was expected in place of the number that was found.
    pub fn expected(&self) -> (text: &'static str)
        ensures
            text@ == "a value between 0 and 9223372036854775"@,
    {
        "a value between 0 and 9223372036854775"
    }
}

/// Asks `chrono::TimeDelta::try_seconds` whether it makes a duration of
/// `seconds`. It does unless `seconds` is more than `i64::MAX / 1000` or
/// less than `-i64::MAX / 1000`.
#[verifier::external_body]
fn representable(seconds: i64) -> (ok: bool)
    ensures
        ok == (-(MAX_SECONDS as int) <= seconds <= MAX_SECONDS as int),
{
    chrono::TimeDelta::try_seconds(seconds).is_some()
}

impl PositiveSeconds {
    /// Every value is within the bounds.
    #[verifier::type_invariant]
    spec fn within_bounds(self) -> bool {
        0 <= self.seconds <= MAX_SECONDS
    }

    /// The number of seconds: never negative, never more than
    /// [`MAX_SECONDS`].
    pub fn seconds(&self) -> (seconds: i64)
        ensures
            seconds == self@,
            0 <= seconds <= MAX_SECONDS,
    {
        proof {
            use_type_invariant(self);
        }
        self.seconds
    }
}

/// The duration of `seconds` seconds, unless that is more than
/// [`MAX_SECONDS`].
pub fn deserialize(seconds: u64) -> (r: core::result::Result<PositiveSeconds, OutOfRange>)
    ensures
        seconds <= MAX_SECONDS ==> r is Ok && r->Ok_0@ == seconds,
        seconds > MAX_SECONDS ==> r == Err::<PositiveSeconds, OutOfRange>(
            OutOfRange { found: seconds },
        ),
{
    if seconds > MAX_SECONDS {
        return Err(OutOfRange { found: seconds });
    }
    let whole: i64 = seconds as i64;
    if representable(whole) {
        Ok(PositiveSeconds { seconds: whole })
    } else {
        Err(OutOfRange { found: seconds })
    }
}

/// The number of whole seconds in `x`.
pub fn serialize(x: &PositiveSeconds) -> (seconds: i64)
    ensures
        seconds == x@,
        0 <= seconds <= MAX_SECONDS,
{
    x.seconds()
}

} // verus!

//! How long a test ran.

use crate::decimal::{decimal, fraction, push_decimal, push_fraction};
use vstd::prelude::*;
use vstd::string::*;

verus! {

/// The nanoseconds in one second.
pub const NANOS_PER_SECOND: u32 = 1_000_000_000;

/// The longest duration, in nanoseconds.
pub open spec fn max_nanoseconds() -> nat {
    (u64::MAX as nat) * 1_000_000_000 + 999_999_999
}

/// A duration in decimal seconds: the whole seconds, then the fraction
/// where there is one, to the nanosecond and without trailing zeros.
pub open spec fn seconds_text(nanoseconds: nat) -> Seq<char> {
    decimal(nanoseconds / 1_000_000_000) + fraction(nanoseconds % 1_000_000_000)
}

/// A span of time that is not negative, exact to the nanosecond. Its view
/// is its length in nanoseconds.
#[derive(Clone, Copy, Debug, PartialEq, Eq, Structural, PartialOrd, Ord, Hash)]
pub struct Duration {
    seconds: u64,
    nanoseconds: u32,
}

impl View for Duration {
    type V = nat;

    closed spec fn view(&self) -> nat {
        (self.seconds as nat) * 1_000_000_000 + (self.nanoseconds as nat)
    }
}

/// Appends a duration of `seconds` whole seconds and `nanoseconds` under a
/// second to `out`, in decimal seconds.
pub(crate) fn push_seconds(out: &mut String, seconds: u128, nanoseconds: u32)
    requires
        nanoseconds < NANOS_PER_SECOND,
    ensures
        final(out)@ == old(out)@ + seconds_text(
            (seconds as nat) * 1_000_000_000 + (nanoseconds as nat),
        ),
{
    let ghost total = (seconds as nat) * 1_000_000_000 + (nanoseconds as nat);
    assert(total / 1_000_000_000 == seconds && total % 1_000_000_000 == nanoseconds) by {
        vstd::arithmetic::div_mod::lemma_fundamental_div_mod_converse(
            total as int,
            1_000_000_000,
            seconds as int,
            nanoseconds as int,
        );
    }
    push_decimal(out, seconds);
    push_fraction(out, nanoseconds);
    assert(out@ =~= old(out)@ + seconds_text(total));
}

impl Duration {
    #[verifier::type_invariant]
    spec fn well_formed(self) -> bool {
        self.nanoseconds < NANOS_PER_SECOND
    }

    /// The duration of no length.
    pub fn zero() -> (d: Duration)
        ensures
            d@ == 0,
    {
        Duration { seconds: 0, nanoseconds: 0 }
    }

    /// A duration of whole seconds.
    pub fn seconds(seconds: u64) -> (d: Duration)
        ensures
            d@ == seconds as nat * 1_000_000_000,
    {
        Duration { seconds, nanoseconds: 0 }
    }

    /// A duration of whole milliseconds.
    pub fn milliseconds(milliseconds: u64) -> (d: Duration)
        ensures
            d@ == milliseconds as nat * 1_000_000,
    {
        let sub: u32 = (milliseconds % 1_000) as u32;
        Duration { seconds: milliseconds / 1_000, nanoseconds: sub * 1_000_000 }
    }

    /// A duration of whole microseconds.
    pub fn microseconds(microseconds: u64) -> (d: Duration)
        ensures
            d@ == microseconds as nat * 1_000,
    {
        let sub: u32 = (microseconds % 1_000_000) as u32;
        Duration { seconds: microseconds / 1_000_000, nanoseconds: sub * 1_000 }
    }

    /// A duration of whole nanoseconds.
    pub fn nanoseconds(nanoseconds: u64) -> (d: Duration)
        ensures
            d@ == nanoseconds as nat,
    {
        let sub: u32 = (nanoseconds % 1_000_000_000) as u32;
        Duration { seconds: nanoseconds / 1_000_000_000, nanoseconds: sub }
    }

    /// The whole seconds of the duration.
    pub fn whole_seconds(&self) -> (seconds: u64)
        ensures
            seconds as nat == self@ / 1_000_000_000,
    {
        proof {
            use_type_invariant(self);
            vstd::arithmetic::div_mod::lemma_fundamental_div_mod_converse(
                self@ as int,
                1_000_000_000,
                self.seconds as int,
                self.nanoseconds as int,
            );
        }
        self.seconds
    }

    /// What the duration has beyond its whole seconds, in nanoseconds.
    pub fn subsec_nanoseconds(&self) -> (nanoseconds: u32)
        ensures
            nanoseconds as nat == self@ % 1_000_000_000,
    {
        proof {
            use_type_invariant(self);
            vstd::arithmetic::div_mod::lemma_fundamental_div_mod_converse(
                self@ as int,
                1_000_000_000,
                self.seconds as int,
                self.nanoseconds as int,
            );
        }
        self.nanoseconds
    }

    /// The sum of two durations, where it is no longer than the longest.
    pub fn checked_add(self, other: Duration) -> (sum: Option<Duration>)
        ensures
            self@ + other@ <= max_nanoseconds() <==> sum is Some,
            sum matches Some(d) ==> d@ == self@ + other@,
    {
        proof {
            use_type_invariant(self);
            use_type_invariant(other);
        }
        let mut nanoseconds: u32 = self.nanoseconds + other.nanoseconds;
        let mut carry: u64 = 0;
        if nanoseconds >= NANOS_PER_SECOND {
            nanoseconds = nanoseconds - NANOS_PER_SECOND;
            carry = 1;
        }
        match self.seconds.checked_add(other.seconds) {
            Some(seconds) => match seconds.checked_add(carry) {
                Some(seconds) => Some(Duration { seconds, nanoseconds }),
                None => None,
            },
            None => None,
        }
    }

    /// The duration in decimal seconds.
    pub fn as_seconds_text(&self) -> (text: String)
        ensures
            text@ == seconds_text(self@),
    {
        proof {
            use_type_invariant(self);
        }
        let mut text = String::new();
        push_seconds(&mut text, self.seconds as u128, self.nanoseconds);
        assert(text@ =~= seconds_text(self@));
        text
    }
}

} // verus!

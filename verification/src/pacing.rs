//! Spans of time and the rest between two iterations of the loop.
use vstd::prelude::*;

verus! {

/// Nanoseconds in one second.
pub const NANOS_PER_SEC: u32 = 1_000_000_000;

/// Seconds that one iteration of the loop is meant to take.
pub const LOOP_SPEED_SECS: u64 = 10;

/// A span of time: whole seconds and the nanoseconds beyond them.
#[derive(Clone, Copy, Debug, PartialEq, Eq, Structural)]
pub struct Span {
    secs: u64,
    nanos: u32,
}

impl View for Span {
    type V = nat;

    /// The span in nanoseconds.
    closed spec fn view(&self) -> nat {
        (self.secs * NANOS_PER_SEC + self.nanos) as nat
    }
}

impl Span {
    /// The nanoseconds beyond the whole seconds stay below one second.
    #[verifier::type_invariant]
    spec fn well_formed(self) -> bool {
        self.nanos < NANOS_PER_SEC
    }

    /// The span of `secs` seconds and `nanos` nanoseconds, where `nanos` is
    /// less than a second.
    pub fn new(secs: u64, nanos: u32) -> (r: Option<Span>)
        ensures
            nanos < NANOS_PER_SEC ==> r is Some && r.unwrap()@ == secs * NANOS_PER_SEC + nanos,
            nanos >= NANOS_PER_SEC ==> r is None,
    {
        if nanos < NANOS_PER_SEC {
            Some(Span { secs, nanos })
        } else {
            None
        }
    }

    /// The span of `secs` whole seconds.
    pub fn from_secs(secs: u64) -> (s: Span)
        ensures
            s@ == secs * NANOS_PER_SEC,
    {
        Span { secs, nanos: 0 }
    }

    /// The whole seconds of the span.
    pub fn secs(&self) -> (r: u64)
        ensures
            r == self@ / (NANOS_PER_SEC as nat),
    {
        proof {
            use_type_invariant(self);
            lemma_parts(self.secs as nat, self.nanos as nat);
        }
        self.secs
    }

    /// The nanoseconds of the span beyond its whole seconds.
    pub fn subsec_nanos(&self) -> (r: u32)
        ensures
            r == self@ % (NANOS_PER_SEC as nat),
    {
        proof {
            use_type_invariant(self);
            lemma_parts(self.secs as nat, self.nanos as nat);
        }
        self.nanos
    }
}

/// Seconds and nanoseconds are the quotient and remainder of the nanoseconds
/// they add up to.
proof fn lemma_parts(secs: nat, nanos: nat)
    requires
        nanos < NANOS_PER_SEC,
    ensures
        (secs * NANOS_PER_SEC + nanos) / (NANOS_PER_SEC as int) == secs,
        (secs * NANOS_PER_SEC + nanos) % (NANOS_PER_SEC as int) == nanos,
{
    vstd::arithmetic::div_mod::lemma_fundamental_div_mod_converse(
        (secs * NANOS_PER_SEC + nanos) as int,
        NANOS_PER_SEC as int,
        secs as int,
        nanos as int,
    );
}

/// The span that the loop targets for one iteration.
pub fn loop_speed() -> (s: Span)
    ensures
        s@ == LOOP_SPEED_SECS * NANOS_PER_SEC,
{
    Span::from_secs(LOOP_SPEED_SECS)
}

/// How long the loop rests after an iteration that took `elapsed`, against the
/// target `target`.
///
/// An iteration that stayed under the target is followed by a rest of exactly
/// the difference. One that met or passed the target is followed by none.
pub fn time_to_rest(target: Span, elapsed: Span) -> (r: Option<Span>)
    ensures
        elapsed@ < target@ ==> r is Some && r.unwrap()@ == target@ - elapsed@,
        elapsed@ >= target@ ==> r is None,
{
    proof {
        use_type_invariant(target);
        use_type_invariant(elapsed);
    }
    if elapsed.secs > target.secs || (elapsed.secs == target.secs && elapsed.nanos
        >= target.nanos) {
        return None;
    }
    if target.nanos >= elapsed.nanos {
        Some(Span { secs: target.secs - elapsed.secs, nanos: target.nanos - elapsed.nanos })
    } else {
        Some(
            Span {
                secs: target.secs - elapsed.secs - 1,
                nanos: target.nanos + (NANOS_PER_SEC - elapsed.nanos),
            },
        )
    }
}

} // verus!

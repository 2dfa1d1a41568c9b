//! Progress simulator: a gauge that creeps towards full and then stays there.
//!
//! The gauge is kept in fixed point. One unit is the smallest step a single
//! random draw can make, so every draw is an exact whole number of units and
//! no rounding ever enters the sum.

use crate::random::next_word;
use vstd::prelude::*;

verus! {

/// The value of a full gauge: the fraction `1.0`.
pub const FULL: u64 = 16_777_216_000;

/// Exclusive upper bound of one tick's random increment: a thousandth of
/// [`FULL`]. A tick adds a whole number of units below this bound.
pub const DRAW_SPAN: u64 = 16_777_216;

/// The value a fresh gauge starts at: a tenth of [`FULL`].
pub const SEED: u64 = 1_677_721_600;

/// The gauge after adding `increment` to `value`: the sum, held at [`FULL`].
pub open spec fn advanced(value: nat, increment: nat) -> nat {
    if value + increment >= FULL {
        FULL as nat
    } else {
        value + increment
    }
}

/// The increment that a raw 32-bit random word stands for: its upper 24 bits.
pub open spec fn increment_of_word(word: u32) -> nat {
    (word as nat) / 256
}

/// The gauge after the increments of a whole run of ticks, first to last.
pub open spec fn after_run(value: nat, increments: Seq<nat>) -> nat
    decreases increments.len(),
{
    if increments.len() == 0 {
        value
    } else {
        advanced(after_run(value, increments.drop_last()), increments.last())
    }
}

/// The sum of the increments of a run.
pub open spec fn total(increments: Seq<nat>) -> nat
    decreases increments.len(),
{
    if increments.len() == 0 {
        0
    } else {
        total(increments.drop_last()) + increments.last()
    }
}

/// The state of the progress gauge: a value between `0` and [`FULL`], read
/// as the fraction `value / FULL`.
#[derive(Clone, Copy, Debug, PartialEq, Eq)]
pub struct ProgressState {
    value: u64,
}

impl View for ProgressState {
    type V = nat;

    closed spec fn view(&self) -> nat {
        self.value as nat
    }
}

/// Turns a raw random word into the increment of one tick.
pub fn increment_from_word(word: u32) -> (increment: u64)
    ensures
        increment == increment_of_word(word),
        increment < DRAW_SPAN,
{
    let top: u32 = word >> 8;
    assert(top == word / 256 && top < 0x100_0000) by (bit_vector)
        requires
            top == word >> 8,
    ;
    top as u64
}

/// Draws the increment of one tick: a fresh random word, reduced to its
/// upper 24 bits. Every value below [`DRAW_SPAN`] can come back, and each
/// call draws afresh.
pub fn draw_increment() -> (increment: u64)
    ensures
        increment < DRAW_SPAN,
{
    increment_from_word(next_word())
}

impl ProgressState {
    /// A gauge never stands above [`FULL`].
    #[verifier::type_invariant]
    pub open spec fn inv(self) -> bool {
        self@ <= FULL
    }

    /// A fresh gauge, standing at [`SEED`].
    pub fn seeded() -> (state: ProgressState)
        ensures
            state@ == SEED,
    {
        ProgressState { value: SEED }
    }

    /// A gauge standing at `value`, unless that is more than [`FULL`].
    pub fn new(value: u64) -> (state: Option<ProgressState>)
        ensures
            state is Some <==> value <= FULL,
            state is Some ==> state->0@ == value,
    {
        if value <= FULL {
            Some(ProgressState { value })
        } else {
            None
        }
    }

    /// Where the gauge stands, in units of which [`FULL`] make the whole.
    pub fn value(&self) -> (value: u64)
        ensures
            value == self@,
            value <= FULL,
    {
        proof {
            use_type_invariant(self);
        }
        self.value
    }

    /// Whether the gauge is full: exactly at [`FULL`], not merely close.
    pub fn is_terminal(&self) -> (terminal: bool)
        ensures
            terminal == (self@ == FULL),
    {
        self.value == FULL
    }

    /// Adds `increment` to the gauge and holds the result at [`FULL`].
    ///
    /// The gauge never goes down, and a full gauge stays full.
    pub fn advance_by(&mut self, increment: u64)
        ensures
            final(self)@ == advanced(old(self)@, increment as nat),
            old(self)@ <= final(self)@ <= FULL,
            old(self)@ == FULL ==> final(self)@ == FULL,
    {
        proof {
            use_type_invariant(&*self);
        }
        let room: u64 = FULL - self.value;
        if increment >= room {
            self.value = FULL;
        } else {
            self.value = self.value + increment;
        }
    }

    /// One tick of the gauge: draws a random increment below [`DRAW_SPAN`]
    /// and adds it with [`ProgressState::advance_by`].
    ///
    /// Which increment is drawn is left to chance; whatever it is, the gauge
    /// never goes down, never passes [`FULL`], and stays full once full.
    pub fn advance(&mut self)
        ensures
            exists|increment: nat|
                increment < DRAW_SPAN && final(self)@ == #[trigger] advanced(
                    old(self)@,
                    increment,
                ),
            old(self)@ <= final(self)@ <= FULL,
            old(self)@ == FULL ==> final(self)@ == FULL,
    {
        let increment = draw_increment();
        self.advance_by(increment);
        assert(self@ == advanced(old(self)@, increment as nat));
    }
}

/// A single step never lowers a valid gauge and never takes it past
/// [`FULL`].
pub proof fn lemma_step_is_monotone(value: nat, increment: nat)
    requires
        value <= FULL,
    ensures
        value <= advanced(value, increment) <= FULL,
{
}

/// Over any run of ticks a valid gauge stays between its start and [`FULL`]
/// and never goes down: after more ticks it stands at least as high as
/// after fewer.
pub proof fn lemma_run_is_monotone(value: nat, increments: Seq<nat>, fewer: int, more: int)
    requires
        value <= FULL,
        0 <= fewer <= more <= increments.len(),
    ensures
        value <= after_run(value, increments.take(fewer)) <= after_run(
            value,
            increments.take(more),
        ) <= FULL,
    decreases more,
{
    if more == 0 {
        assert(increments.take(0).len() == 0);
    } else if fewer == more {
        lemma_run_is_monotone(value, increments, fewer - 1, more - 1);
        assert(increments.take(more).drop_last() =~= increments.take(more - 1));
    } else {
        lemma_run_is_monotone(value, increments, fewer, more - 1);
        assert(increments.take(more).drop_last() =~= increments.take(more - 1));
    }
}

/// Full is absorbing: whatever increments follow, a full gauge stays
/// exactly full.
pub proof fn lemma_full_is_absorbing(increments: Seq<nat>)
    ensures
        after_run(FULL as nat, increments) == FULL,
    decreases increments.len(),
{
    if increments.len() > 0 {
        lemma_full_is_absorbing(increments.drop_last());
    }
}

/// A run of ticks takes a valid gauge to the sum of its start and all the
/// increments, held at [`FULL`]. So the gauge is full after the run exactly
/// when that sum has reached [`FULL`], and it never overshoots.
pub proof fn lemma_run_clamps_sum(value: nat, increments: Seq<nat>)
    requires
        value <= FULL,
    ensures
        after_run(value, increments) == if value + total(increments) >= FULL {
            FULL as nat
        } else {
            value + total(increments)
        },
        after_run(value, increments) == FULL <==> value + total(increments) >= FULL,
    decreases increments.len(),
{
    if increments.len() > 0 {
        lemma_run_clamps_sum(value, increments.drop_last());
    }
}

} // verus!

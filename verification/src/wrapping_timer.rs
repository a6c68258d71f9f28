use vstd::prelude::*;

verus! {

/// The number of distinct values of the counter: it counts from 0 through
/// `u32::MAX` and then starts again at 0.
pub open spec fn counter_modulus() -> int {
    0x1_0000_0000
}

/// The time from the reading `earlier` to the reading `now`, in microseconds,
/// where the counter wrapped at most once in between.
pub open spec fn wrapping_elapsed(now: int, earlier: int) -> int {
    (now - earlier) % counter_modulus()
}

/// A clock that counts microseconds upwards from 0 through `u32::MAX` and then
/// wraps back around to 0.
///
/// The clock holds the last reading that was taken of the free-running
/// counter; whoever owns the counter records its readings with `capture`.
pub struct WrappingTimer {
    captured_us: u32,
}

impl View for WrappingTimer {
    type V = nat;

    /// The last reading of the counter.
    closed spec fn view(&self) -> nat {
        self.captured_us as nat
    }
}

impl WrappingTimer {
    /// A clock whose counter was just cleared.
    pub fn new() -> (timer: Self)
        ensures
            timer@ == 0,
    {
        Self { captured_us: 0 }
    }

    /// Record a reading of the counter.
    pub fn capture(&mut self, counter_us: u32)
        ensures
            final(self)@ == counter_us,
    {
        self.captured_us = counter_us;
    }

    /// Return the current timestamp, in microseconds.
    pub fn curr_time_us(&self) -> (now: u32)
        ensures
            now == self@,
    {
        self.captured_us
    }

    /// How long, in microseconds, has it been since the given timestamp?
    ///
    /// Note that the answer will wrap, if >= 2^32 microseconds have elapsed
    /// since the given timestamp. 2^32 microseconds is about an hour -- so
    /// don't use this to measure durations any longer than that.
    pub fn elapsed_us(&self, earlier_time_us: u32) -> (elapsed: u32)
        ensures
            elapsed == wrapping_elapsed(self@ as int, earlier_time_us as int),
    {
        self.curr_time_us().wrapping_sub(earlier_time_us)
    }
}

/// A duration shorter than one turn of the counter is measured exactly, also
/// where the counter wrapped between the two readings: for two moments
/// `earlier <= now` on an unbounded time line that lie less than 2^32
/// microseconds apart, the readings taken at them give `now - earlier`.
pub proof fn lemma_elapsed_exact_across_wrap(earlier: nat, now: nat)
    requires
        earlier <= now,
        now - earlier < counter_modulus(),
    ensures
        wrapping_elapsed(now as int % counter_modulus(), earlier as int % counter_modulus()) == now
            - earlier,
{
    let m = counter_modulus();
    let a = now as int;
    let b = earlier as int;
    assert((a % m - b % m) % m == a - b) by (nonlinear_arith)
        requires
            m == 0x1_0000_0000,
            0 <= b <= a,
            a - b < m,
    ;
}

} // verus!

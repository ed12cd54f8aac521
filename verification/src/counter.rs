use vstd::prelude::*;

verus! {

/// The shared state of the counter during one objective: the value on the dial (0 to 100),
/// the number of full turns (misses), and whether it runs or has been stopped.
#[derive(Debug)]
pub struct CounterState {
    pub value: i32,
    pub miss: i32,
    pub running: bool,
    pub stopped: bool,
}

/// What the player stopped the counter at.
#[derive(Debug, Clone, Copy)]
pub struct CounterResult {
    pub value: i32,
    pub miss: i32,
}

/// One step of the counter on (value, miss): the value goes up by one, and past 100 it
/// wraps to 0 and one more miss is counted.
pub open spec fn spec_tick(value: int, miss: int) -> (int, int) {
    if value + 1 > 100 {
        (0, miss + 1)
    } else {
        (value + 1, miss)
    }
}

/// The counter's (value, miss) after `n` steps from (value, miss).
pub open spec fn spec_ticks(value: int, miss: int, n: nat) -> (int, int)
    decreases n,
{
    if n == 0 {
        (value, miss)
    } else {
        let before = spec_ticks(value, miss, (n - 1) as nat);
        spec_tick(before.0, before.1)
    }
}

/// A step stays within `i32`.
pub open spec fn tick_fits(s: CounterState) -> bool {
    &&& s.value < i32::MAX
    &&& (s.value + 1 > 100 ==> s.miss < i32::MAX)
}

impl CounterState {
    /// A counter at 0 with no miss, neither running nor stopped.
    pub fn new() -> (s: Self)
        ensures
            s.value == 0,
            s.miss == 0,
            !s.running,
            !s.stopped,
    {
        CounterState { value: 0, miss: 0, running: false, stopped: false }
    }

    /// Puts the counter back at 0 with no miss, running.
    pub fn reset(&mut self)
        ensures
            final(self).value == 0,
            final(self).miss == 0,
            final(self).running,
            !final(self).stopped,
    {
        self.value = 0;
        self.miss = 0;
        self.running = true;
        self.stopped = false;
    }

    /// One step of the counting thread: a stopped counter does not move and tells the
    /// thread to end; otherwise the counter advances by one, wrapping after 100.
    pub fn tick(&mut self) -> (advanced: bool)
        requires
            !old(self).stopped ==> tick_fits(*old(self)),
        ensures
            advanced == !old(self).stopped,
            old(self).stopped ==> *final(self) == *old(self),
            !old(self).stopped ==> (final(self).value as int, final(self).miss as int) == spec_tick(
                old(self).value as int,
                old(self).miss as int,
            ),
            final(self).running == old(self).running,
            final(self).stopped == old(self).stopped,
    {
        if self.stopped {
            return false;
        }
        self.value = self.value + 1;
        if self.value > 100 {
            self.value = 0;
            self.miss = self.miss + 1;
        }
        true
    }

    /// Stops the counter and reports where it stood.
    pub fn stop(&mut self) -> (result: CounterResult)
        ensures
            final(self).stopped,
            !final(self).running,
            final(self).value == old(self).value,
            final(self).miss == old(self).miss,
            result.value == old(self).value,
            result.miss == old(self).miss,
    {
        self.stopped = true;
        self.running = false;
        CounterResult { value: self.value, miss: self.miss }
    }
}

/// From a reset counter, `n` steps leave the value at `n % 101` and count `n / 101` misses:
/// the dial has 101 positions and each full turn is one miss.
pub proof fn law_ticks_from_reset(n: nat)
    ensures
        spec_ticks(0, 0, n) == (n as int % 101, n as int / 101),
        0 <= spec_ticks(0, 0, n).0 <= 100,
    decreases n,
{
    if n > 0 {
        let k = (n - 1) as nat;
        law_ticks_from_reset(k);
        vstd::arithmetic::div_mod::lemma_fundamental_div_mod(k as int, 101);
        vstd::arithmetic::div_mod::lemma_fundamental_div_mod(n as int, 101);
        let q = k as int / 101;
        let r = k as int % 101;
        if r == 100 {
            assert(n as int == 101 * (q + 1) + 0);
            vstd::arithmetic::div_mod::lemma_fundamental_div_mod_converse(n as int, 101, q + 1, 0);
        } else {
            assert(n as int == 101 * q + (r + 1));
            vstd::arithmetic::div_mod::lemma_fundamental_div_mod_converse(n as int, 101, q, r + 1);
        }
    }
}

} // verus!

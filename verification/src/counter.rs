//! The counter component: one unsigned 32-bit value, five operations.

use vstd::prelude::*;

verus! {

/// One invocation of the counter component, as the host may make it.
pub enum Op {
    Increment,
    Decrement,
    GetValue,
    Reset,
    SetValue(u32),
}

/// The counter after `increment`: one more, wrapping silently past the
/// maximum representable value.
pub open spec fn inc_spec(c: u32) -> u32 {
    if c == u32::MAX {
        0
    } else {
        (c + 1) as u32
    }
}

/// The counter after `decrement`: one less, but never below zero; at the
/// floor the operation is a no-op.
pub open spec fn dec_spec(c: u32) -> u32 {
    if c > 0 {
        (c - 1) as u32
    } else {
        0
    }
}

/// The transition function of the counter's state machine: the value after
/// one operation. Every operation also returns this post-transition value.
pub open spec fn step(c: u32, op: Op) -> u32 {
    match op {
        Op::Increment => inc_spec(c),
        Op::Decrement => dec_spec(c),
        Op::GetValue => c,
        Op::Reset => 0,
        Op::SetValue(v) => v,
    }
}

/// The value after a whole sequence of operations, applied left to right.
pub open spec fn run(c: u32, ops: Seq<Op>) -> u32
    decreases ops.len(),
{
    if ops.len() == 0 {
        c
    } else {
        run(step(c, ops[0]), ops.subrange(1, ops.len() as int))
    }
}

/// The module's only persistent state: a single unsigned 32-bit counter,
/// zero at load, mutated by the five operations alone.
pub struct Counter {
    value: u32,
}

impl View for Counter {
    type V = u32;

    closed spec fn view(&self) -> u32 {
        self.value
    }
}

impl Counter {
    /// The counter of a freshly loaded module instance: zero.
    pub fn new() -> (c: Counter)
        ensures
            c@ == 0,
    {
        Counter { value: 0 }
    }

    /// Adds one, wrapping past the maximum, and returns the new value.
    pub fn increment(&mut self) -> (r: u32)
        ensures
            final(self)@ == step(old(self)@, Op::Increment),
            r == final(self)@,
    {
        if self.value == u32::MAX {
            self.value = 0;
        } else {
            self.value = self.value + 1;
        }
        self.value
    }

    /// Subtracts one unless the counter is already zero, and returns the
    /// new value; at the floor it returns zero unchanged.
    pub fn decrement(&mut self) -> (r: u32)
        ensures
            final(self)@ == step(old(self)@, Op::Decrement),
            r == final(self)@,
    {
        if self.value > 0 {
            self.value = self.value - 1;
        }
        self.value
    }

    /// Reads the current value without mutating anything.
    pub fn get_value(&self) -> (r: u32)
        ensures
            r == self@,
    {
        self.value
    }

    /// Sets the counter back to zero and returns zero.
    pub fn reset(&mut self) -> (r: u32)
        ensures
            final(self)@ == 0,
            r == 0,
    {
        self.value = 0;
        self.value
    }

    /// Overwrites the counter with `value` and returns it.
    pub fn set_value(&mut self, value: u32) -> (r: u32)
        ensures
            final(self)@ == value,
            r == value,
    {
        self.value = value;
        self.value
    }
}

/// Appending one operation to a sequence steps from the sequence's result.
pub proof fn lemma_run_push(c: u32, ops: Seq<Op>, op: Op)
    ensures
        run(c, ops.push(op)) == step(run(c, ops), op),
    decreases ops.len(),
{
    if ops.len() == 0 {
        let empty: Seq<Op> = Seq::empty();
        assert(ops.push(op)[0] == op);
        assert(ops.push(op).subrange(1, 1) =~= empty);
        assert(run(step(c, op), empty) == step(c, op));
        assert(run(c, ops.push(op)) == run(step(c, op), ops.push(op).subrange(1, 1)));
    } else {
        let tail = ops.subrange(1, ops.len() as int);
        assert(ops.push(op)[0] == ops[0]);
        assert(ops.push(op).subrange(1, ops.len() as int + 1) =~= tail.push(op));
        lemma_run_push(step(c, ops[0]), tail, op);
        assert(run(c, ops.push(op)) == run(step(c, ops[0]), tail.push(op)));
        assert(run(c, ops) == run(step(c, ops[0]), tail));
    }
}

/// Whatever sequence of operations ran from a fresh load, the value right
/// after a `reset` is exactly zero.
pub proof fn lemma_reset_returns_zero(ops: Seq<Op>)
    ensures
        run(0, ops.push(Op::Reset)) == 0,
{
    lemma_run_push(0, ops, Op::Reset);
}

/// `set_value(v)` immediately followed by `get_value()` yields `v`.
pub proof fn lemma_set_then_get(c: u32, v: u32)
    ensures
        step(c, Op::SetValue(v)) == v,
        step(step(c, Op::SetValue(v)), Op::GetValue) == v,
{
}

/// Decrement floor: from a zero counter, `decrement` leaves zero and
/// returns it, with no underflow.
pub proof fn lemma_decrement_floor(c: u32)
    requires
        c == 0,
    ensures
        step(c, Op::Decrement) == 0,
{
}

/// Away from the floor, `increment` undoes `decrement`: from `n > 0`,
/// decrementing and then incrementing is back at `n`.
pub proof fn lemma_decrement_then_increment(n: u32)
    requires
        n > 0,
    ensures
        step(step(n, Op::Decrement), Op::Increment) == n,
{
}

/// `get_value` is side-effect-free: any run made only of reads leaves the
/// counter where it was, so each read in a row returns the same value.
pub proof fn lemma_reads_change_nothing(c: u32, ops: Seq<Op>)
    requires
        forall|i: int| 0 <= i < ops.len() ==> ops[i] is GetValue,
    ensures
        run(c, ops) == c,
    decreases ops.len(),
{
    if ops.len() > 0 {
        assert(ops[0] is GetValue);
        lemma_reads_change_nothing(c, ops.subrange(1, ops.len() as int));
    }
}

} // verus!

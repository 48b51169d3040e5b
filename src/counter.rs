//! A counter holding one signed 32-bit value.

use vstd::prelude::*;

verus! {

/// The events a counter reacts to.
#[derive(Debug, Clone, Copy, PartialEq, Eq, Structural)]
pub enum Message {
    /// Raise the value by one.
    Increment,
    /// Lower the value by one.
    Decrement,
    /// Set the value back to zero.
    Reset,
}

/// The counter's state: a single value, which wraps around at the bounds of
/// `i32`.
#[derive(Debug, Clone, Copy, PartialEq, Eq, Structural)]
pub struct Counter {
    pub value: i32,
}

/// `x` reduced into the range of `i32`, as two's complement arithmetic does.
pub open spec fn wrap_i32(x: int) -> i32 {
    vstd::wrapping::i32_specs::signed_crop(x)
}

/// The value a counter holds after handling `m` when it held `v`.
pub open spec fn step(v: i32, m: Message) -> i32 {
    match m {
        Message::Increment => wrap_i32(v + 1),
        Message::Decrement => wrap_i32(v - 1),
        Message::Reset => 0,
    }
}

/// The value after handling every message of `msgs` in order, from `v`.
pub open spec fn run(v: i32, msgs: Seq<Message>) -> i32
    decreases msgs.len(),
{
    if msgs.len() == 0 {
        v
    } else {
        step(run(v, msgs.drop_last()), msgs.last())
    }
}

/// The net change that `msgs` asks for: one up for each increment, one down
/// for each decrement.
pub open spec fn net(msgs: Seq<Message>) -> int
    decreases msgs.len(),
{
    if msgs.len() == 0 {
        0
    } else {
        net(msgs.drop_last()) + match msgs.last() {
            Message::Increment => 1int,
            Message::Decrement => -1int,
            Message::Reset => 0int,
        }
    }
}

/// Reducing into `i32` forgets whole turns: moving a wrapped value by `d` and
/// wrapping again is the same as moving the unwrapped value by `d`.
proof fn lemma_wrap_shift(x: int, d: int)
    ensures
        wrap_i32(wrap_i32(x) + d) == wrap_i32(x + d),
{
    let m: int = 0x1_0000_0000;
    vstd::arithmetic::div_mod::lemma_fundamental_div_mod(x, m);
    let k: int = if x % m > i32::MAX as int { -(x / m) - 1 } else { -(x / m) };
    assert(wrap_i32(x) + d == m * k + (x + d)) by (nonlinear_arith)
        requires
            x == m * (x / m) + x % m,
            k == (if x % m > i32::MAX as int { -(x / m) - 1 } else { -(x / m) }),
            wrap_i32(x) == (if x % m > i32::MAX as int { x % m - m } else { x % m }),
    ;
    vstd::arithmetic::div_mod::lemma_mod_multiples_vanish(k, x + d, m);
}

/// Over any run of increments and decrements, the counter ends at its start
/// value moved by their net sum (one up per increment, one down per
/// decrement), wrapped into `i32`.
pub proof fn lemma_run_is_net_sum(v: i32, msgs: Seq<Message>)
    requires
        forall|i: int| 0 <= i < msgs.len() ==> msgs[i] != Message::Reset,
    ensures
        run(v, msgs) == wrap_i32(v + net(msgs)),
    decreases msgs.len(),
{
    if msgs.len() == 0 {
        assert(wrap_i32(v as int) == v);
    } else {
        let pre = msgs.drop_last();
        assert forall|i: int| 0 <= i < pre.len() implies pre[i] != Message::Reset by {
            assert(pre[i] == msgs[i]);
        }
        lemma_run_is_net_sum(v, pre);
        assert(msgs.last() == msgs[msgs.len() - 1]);
        match msgs.last() {
            Message::Increment => lemma_wrap_shift(v + net(pre), 1),
            Message::Decrement => lemma_wrap_shift(v + net(pre), -1),
            Message::Reset => {},
        }
    }
}

/// A reset brings the counter to zero, whatever came before it.
pub proof fn lemma_reset_zeroes(v: i32, msgs: Seq<Message>)
    ensures
        run(v, msgs.push(Message::Reset)) == 0,
{
    assert(msgs.push(Message::Reset).drop_last() =~= msgs);
}

impl Counter {
    /// A counter at zero.
    pub fn new() -> (r: Self)
        ensures
            r.value == 0,
    {
        Counter { value: 0 }
    }

    /// Handles one message.
    pub fn update(&mut self, message: Message)
        ensures
            final(self).value == step(old(self).value, message),
    {
        match message {
            Message::Increment => self.value = self.value.wrapping_add(1),
            Message::Decrement => self.value = self.value.wrapping_sub(1),
            Message::Reset => self.value = 0,
        }
    }
}

} // verus!

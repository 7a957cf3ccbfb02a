use crate::register::ShiftRegister;
use crate::shifter::ShifterView;
use crate::signal::{chain_pulses, level, pulse, pulses, Line, Signal};
use vstd::prelude::*;

verus! {

/// Adding a register keeps every earlier register, and its index, as it
/// was: the new register lands at index `len`, after all of them.
pub proof fn add_keeps_earlier_registers(s: ShifterView, pins: u8)
    ensures
        s.added(pins).registers.len() == s.registers.len() + 1,
        s.added(pins).registers.subrange(0, s.registers.len() as int) == s.registers,
        s.added(pins).registers[s.registers.len() as int] == (ShiftRegister { data: 0, pins }),
{
    assert(s.added(pins).registers.subrange(0, s.registers.len() as int) =~= s.registers);
}

/// Flipping the polarity twice gives back the state it started from, and a
/// flip never changes any register.
pub proof fn invert_twice_restores(s: ShifterView)
    ensures
        s.toggled().toggled() == s,
        s.toggled().registers == s.registers,
{
}

/// The chain `x + y` is shifted out as all of `x` (in order) followed by all
/// of `y`: registers are serialized in the order they were added.
pub proof fn chain_pulses_append(x: Seq<ShiftRegister>, y: Seq<ShiftRegister>, invert: bool)
    ensures
        chain_pulses(x + y, invert) == chain_pulses(x, invert) + chain_pulses(y, invert),
    decreases y.len(),
{
    if y.len() == 0 {
        assert(x + y =~= x);
        assert(chain_pulses(x, invert) + chain_pulses(y, invert) =~= chain_pulses(x, invert));
    } else {
        assert((x + y).drop_last() =~= x + y.drop_last());
        chain_pulses_append(x, y.drop_last(), invert);
        assert((x + y).last() == y.last());
        assert(chain_pulses(x + y, invert) =~= chain_pulses(x, invert) + chain_pulses(y, invert));
    }
}

/// With two registers, the first added is shifted out completely before
/// any bit of the second.
pub proof fn first_register_shifted_first(s: ShifterView, a: ShiftRegister, b: ShiftRegister)
    requires
        s.registers == seq![a, b],
    ensures
        s.signals() == seq![Signal { line: Line::Latch, high: false }] + pulses(
            a.data,
            s.inverted,
            a.pins as nat,
        ) + pulses(b.data, s.inverted, b.pins as nat) + seq![
            Signal { line: Line::Latch, high: true },
        ],
{
    let one = seq![a];
    assert(seq![a, b].drop_last() =~= one);
    assert(one.drop_last() =~= Seq::<ShiftRegister>::empty());
    assert(chain_pulses(one.drop_last(), s.inverted) == Seq::<Signal>::empty());
    assert(one.last() == a);
    assert(chain_pulses(one, s.inverted) =~= pulses(a.data, s.inverted, a.pins as nat));
    assert(s.signals() =~= seq![Signal { line: Line::Latch, high: false }] + pulses(
        a.data,
        s.inverted,
        a.pins as nat,
    ) + pulses(b.data, s.inverted, b.pins as nat) + seq![
        Signal { line: Line::Latch, high: true },
    ]);
}

/// The pulses of one register never touch the latch line, and there are
/// three signals per pin.
proof fn pulses_skip_latch(word: usize, invert: bool, count: nat)
    ensures
        pulses(word, invert, count).len() == 3 * count,
        forall|i: int|
            0 <= i < pulses(word, invert, count).len() ==> #[trigger] pulses(
                word,
                invert,
                count,
            )[i].line != Line::Latch,
    decreases count,
{
    if count > 0 {
        pulses_skip_latch(word, invert, (count - 1) as nat);
        let prev = pulses(word, invert, (count - 1) as nat);
        let p = pulse(level(word, (count - 1) as usize, invert));
        assert forall|i: int| 0 <= i < pulses(word, invert, count).len() implies #[trigger] pulses(
            word,
            invert,
            count,
        )[i].line != Line::Latch by {
            if i >= prev.len() {
                assert(pulses(word, invert, count)[i] == p[i - prev.len()]);
            } else {
                assert(pulses(word, invert, count)[i] == prev[i]);
            }
        }
    }
}

/// No pulse of any register in the chain touches the latch line.
proof fn chain_pulses_skip_latch(chain: Seq<ShiftRegister>, invert: bool)
    ensures
        forall|i: int|
            0 <= i < chain_pulses(chain, invert).len() ==> #[trigger] chain_pulses(
                chain,
                invert,
            )[i].line != Line::Latch,
    decreases chain.len(),
{
    if chain.len() > 0 {
        chain_pulses_skip_latch(chain.drop_last(), invert);
        let prev = chain_pulses(chain.drop_last(), invert);
        let last = pulses(chain.last().data, invert, chain.last().pins as nat);
        pulses_skip_latch(chain.last().data, invert, chain.last().pins as nat);
        assert forall|i: int| 0 <= i < chain_pulses(chain, invert).len() implies #[trigger] chain_pulses(
            chain,
            invert,
        )[i].line != Line::Latch by {
            if i >= prev.len() {
                assert(chain_pulses(chain, invert)[i] == last[i - prev.len()]);
            } else {
                assert(chain_pulses(chain, invert)[i] == prev[i]);
            }
        }
    }
}

/// One update is a single latch cycle: the latch goes low first and high
/// last, and no signal in between touches it.
pub proof fn update_is_one_latch_cycle(s: ShifterView)
    ensures
        s.signals().len() >= 2,
        s.signals()[0] == (Signal { line: Line::Latch, high: false }),
        s.signals().last() == (Signal { line: Line::Latch, high: true }),
        forall|i: int|
            0 < i < s.signals().len() - 1 ==> #[trigger] s.signals()[i].line != Line::Latch,
{
    let body = chain_pulses(s.registers, s.inverted);
    chain_pulses_skip_latch(s.registers, s.inverted);
    assert forall|i: int| 0 < i < s.signals().len() - 1 implies #[trigger] s.signals()[i].line
        != Line::Latch by {
        assert(s.signals()[i] == body[i - 1]);
    }
}

} // verus!

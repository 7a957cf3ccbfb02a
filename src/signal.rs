use crate::register::ShiftRegister;
use vstd::prelude::*;

verus! {

/// One of the three output lines that drive a chain of shift registers.
#[derive(Clone, Copy, Debug, PartialEq, Eq, Structural)]
pub enum Line {
    /// Serial data input of the first register in the chain.
    Data,
    /// Storage clock: a rising edge copies the shifted bits to the outputs.
    Latch,
    /// Shift clock: a rising edge shifts the level of the data line in.
    Clock,
}

/// Drive `line` high (`high == true`) or low.
#[derive(Clone, Copy, Debug, PartialEq, Eq, Structural)]
pub struct Signal {
    pub line: Line,
    pub high: bool,
}

/// Whether bit `n` (counting from the least significant bit) of `word` is 1.
pub open spec fn bit_set(word: usize, n: usize) -> bool {
    (word >> n) & 1usize == 1usize
}

/// The level put on the data line for bit `n` of `word`.
pub open spec fn level(word: usize, n: usize, invert: bool) -> bool {
    bit_set(word, n) != invert
}

/// One clock pulse: clock low, data line at `high`, clock high.
pub open spec fn pulse(high: bool) -> Seq<Signal> {
    seq![
        Signal { line: Line::Clock, high: false },
        Signal { line: Line::Data, high },
        Signal { line: Line::Clock, high: true },
    ]
}

/// The pulses that shift out bits `0 .. count` of `word`, bit 0 first.
pub open spec fn pulses(word: usize, invert: bool, count: nat) -> Seq<Signal>
    decreases count,
{
    if count == 0 {
        seq![]
    } else {
        pulses(word, invert, (count - 1) as nat) + pulse(level(word, (count - 1) as usize, invert))
    }
}

/// The pulses that shift out every register of `chain`, in order, each
/// register's bits from pin 0 up to its last pin.
pub open spec fn chain_pulses(chain: Seq<ShiftRegister>, invert: bool) -> Seq<Signal>
    decreases chain.len(),
{
    if chain.len() == 0 {
        seq![]
    } else {
        chain_pulses(chain.drop_last(), invert) + pulses(
            chain.last().data,
            invert,
            chain.last().pins as nat,
        )
    }
}

/// A full update of the chain: latch low, every register shifted out, latch high.
pub open spec fn frame(chain: Seq<ShiftRegister>, invert: bool) -> Seq<Signal> {
    seq![Signal { line: Line::Latch, high: false }] + chain_pulses(chain, invert) + seq![
        Signal { line: Line::Latch, high: true },
    ]
}

/// Appends to `out` the pulses that shift out the pins of `sr`.
pub fn shift_out(sr: &ShiftRegister, invert: bool, out: &mut Vec<Signal>)
    requires
        sr.pins as u32 <= usize::BITS,
    ensures
        final(out)@ == old(out)@ + pulses(sr.data, invert, sr.pins as nat),
{
    let mut n: u8 = 0;
    while n < sr.pins
        invariant
            n <= sr.pins,
            sr.pins as u32 <= usize::BITS,
            out@ == old(out)@ + pulses(sr.data, invert, n as nat),
        decreases sr.pins - n,
    {
        let ghost before = out@;
        let shift: usize = n as usize;
        let word: usize = sr.data;
        let bit: usize = (word >> shift) & 1usize;
        assert(bit == 0usize || bit == 1usize) by (bit_vector)
            requires
                bit == (word >> shift) & 1usize,
        ;
        let high: bool = if invert {
            bit == 0
        } else {
            bit == 1
        };
        assert(high == level(sr.data, shift, invert));
        out.push(Signal { line: Line::Clock, high: false });
        out.push(Signal { line: Line::Data, high });
        out.push(Signal { line: Line::Clock, high: true });
        assert(out@ =~= old(out)@ + pulses(sr.data, invert, (n + 1) as nat));
        n = n + 1;
    }
}

} // verus!

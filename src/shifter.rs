use crate::register::ShiftRegister;
use crate::signal::{bit_set, chain_pulses, frame, shift_out, Line, Signal};
use vstd::prelude::*;

verus! {

/// The abstract state of a [`Shifter`]: the pin numbers of its three lines,
/// its registers in the order they were added, and the polarity flag.
pub ghost struct ShifterView {
    pub data: usize,
    pub latch: usize,
    pub clock: usize,
    pub registers: Seq<ShiftRegister>,
    pub inverted: bool,
}

impl ShifterView {
    /// Every register fits in one machine word, so each of its pins can be
    /// addressed by a shift.
    pub open spec fn wf(self) -> bool {
        forall|i: int|
            0 <= i < self.registers.len() ==> #[trigger] self.registers[i].pins as u32
                <= usize::BITS
    }

    /// The state after a register of `pins` pins, all low, joins the end of the chain.
    pub open spec fn added(self, pins: u8) -> ShifterView {
        ShifterView {
            registers: self.registers.push(ShiftRegister { data: 0, pins }),
            ..self
        }
    }

    /// The state after the word of register `index` is replaced by `data`;
    /// unchanged when there is no such register.
    pub open spec fn with_data(self, index: int, data: usize) -> ShifterView {
        if 0 <= index < self.registers.len() {
            ShifterView {
                registers: self.registers.update(
                    index,
                    ShiftRegister { data, pins: self.registers[index].pins },
                ),
                ..self
            }
        } else {
            self
        }
    }

    /// The state after pin `pin` of register `index` is set to 1.
    pub open spec fn with_pin_high(self, index: int, pin: u8) -> ShifterView {
        self.with_data(index, self.registers[index].data | (1usize << pin))
    }

    /// The state after pin `pin` of register `index` is cleared to 0.
    pub open spec fn with_pin_low(self, index: int, pin: u8) -> ShifterView {
        self.with_data(index, self.registers[index].data & !(1usize << pin))
    }

    /// The state after the polarity flag is flipped.
    pub open spec fn toggled(self) -> ShifterView {
        ShifterView { inverted: !self.inverted, ..self }
    }

    /// The signals that bring the whole chain's outputs up to date with this state.
    pub open spec fn signals(self) -> Seq<Signal> {
        frame(self.registers, self.inverted)
    }
}

/// Setting bit `p` of `x` sets that bit and keeps every other bit.
proof fn lemma_or_bit(x: usize, p: usize, n: usize)
    requires
        p < usize::BITS,
        n < usize::BITS,
    ensures
        bit_set(x | (1usize << p), n) == (n == p || bit_set(x, n)),
{
    assert(((x | (1usize << p)) >> n) & 1usize == 1usize <==> (n == p || (x >> n) & 1usize
        == 1usize)) by (bit_vector)
        requires
            p < usize::BITS,
            n < usize::BITS,
    ;
}

/// Clearing bit `p` of `x` clears that bit and keeps every other bit.
proof fn lemma_and_not_bit(x: usize, p: usize, n: usize)
    requires
        p < usize::BITS,
        n < usize::BITS,
    ensures
        bit_set(x & !(1usize << p), n) == (n != p && bit_set(x, n)),
{
    assert(((x & !(1usize << p)) >> n) & 1usize == 1usize <==> (n != p && (x >> n) & 1usize
        == 1usize)) by (bit_vector)
        requires
            p < usize::BITS,
            n < usize::BITS,
    ;
}

/// A chain of shift registers driven from three output lines.
///
/// Registers are added in reverse physical order: the register farthest from
/// the control lines first, the one nearest to them last. Updates are shifted
/// out in the order the registers were added.
pub struct Shifter {
    /// Pin number of the data line.
    pub data: usize,
    /// Pin number of the latch line.
    pub latch: usize,
    /// Pin number of the clock line.
    pub clock: usize,
    shift_registers: Vec<ShiftRegister>,
    invert: bool,
}

impl View for Shifter {
    type V = ShifterView;

    closed spec fn view(&self) -> ShifterView {
        ShifterView {
            data: self.data,
            latch: self.latch,
            clock: self.clock,
            registers: self.shift_registers@,
            inverted: self.invert,
        }
    }
}

impl Shifter {
    /// A shifter on the given data, latch and clock pin numbers, with an
    /// empty chain and normal polarity.
    pub fn new(data_pin: usize, latch_pin: usize, clock_pin: usize) -> (s: Shifter)
        ensures
            s@ == (ShifterView {
                data: data_pin,
                latch: latch_pin,
                clock: clock_pin,
                registers: seq![],
                inverted: false,
            }),
            s@.wf(),
    {
        Shifter {
            data: data_pin,
            latch: latch_pin,
            clock: clock_pin,
            shift_registers: Vec::new(),
            invert: false,
        }
    }

    /// Adds a register of `pins` output pins, all low, to the end of the
    /// chain and returns its index: the number of registers added before it.
    pub fn add(&mut self, pins: u8) -> (index: usize)
        requires
            old(self)@.wf(),
            pins as u32 <= usize::BITS,
        ensures
            index == old(self)@.registers.len(),
            final(self)@ == old(self)@.added(pins),
            final(self)@.wf(),
    {
        let index = self.shift_registers.len();
        self.shift_registers.push(ShiftRegister { data: 0, pins });
        assert(self@.registers[index as int].pins == pins);
        index
    }

    /// Replaces the word of register `index`.
    fn store(&mut self, index: usize, data: usize)
        requires
            old(self)@.wf(),
            index < old(self)@.registers.len(),
        ensures
            final(self)@ == old(self)@.with_data(index as int, data),
            final(self)@.wf(),
    {
        let mut sr = self.shift_registers[index];
        sr.set(data);
        self.shift_registers.set(index, sr);
        assert(self.shift_registers@ =~= old(self)@.with_data(index as int, data).registers);
    }

    /// Sets the word of register `sr_index` to `data`; nothing changes when
    /// there is no such register. With `apply`, returns the signals that shift
    /// the new state out (see [`Shifter::apply`]); without, returns none.
    pub fn set(&mut self, sr_index: usize, data: usize, apply: bool) -> (signals: Vec<Signal>)
        requires
            old(self)@.wf(),
        ensures
            final(self)@ == old(self)@.with_data(sr_index as int, data),
            final(self)@.wf(),
            signals@ == if apply {
                final(self)@.signals()
            } else {
                seq![]
            },
    {
        if sr_index < self.shift_registers.len() {
            self.store(sr_index, data);
        }
        if apply {
            self.apply()
        } else {
            Vec::new()
        }
    }

    /// Sets pin `pin` of register `sr_index` high, leaving its other pins as
    /// they are; nothing changes when there is no such register. Returns the
    /// signals as [`Shifter::set`] does.
    pub fn set_pin_high(&mut self, sr_index: usize, pin: u8, apply: bool) -> (signals: Vec<Signal>)
        requires
            old(self)@.wf(),
            sr_index < old(self)@.registers.len() ==> (pin as u32) < usize::BITS,
        ensures
            final(self)@ == old(self)@.with_pin_high(sr_index as int, pin),
            final(self)@.wf(),
            sr_index < old(self)@.registers.len() ==> forall|n: usize|
                n < usize::BITS ==> #[trigger] bit_set(final(self)@.registers[sr_index as int].data, n)
                    == (n == pin as usize || bit_set(old(self)@.registers[sr_index as int].data, n)),
            signals@ == if apply {
                final(self)@.signals()
            } else {
                seq![]
            },
    {
        if sr_index < self.shift_registers.len() {
            let word = self.shift_registers[sr_index].data | (1usize << pin);
            self.store(sr_index, word);
            assert forall|n: usize| n < usize::BITS implies #[trigger] bit_set(word, n) == (n
                == pin as usize || bit_set(old(self)@.registers[sr_index as int].data, n)) by {
                lemma_or_bit(old(self)@.registers[sr_index as int].data, pin as usize, n);
            }
        }
        if apply {
            self.apply()
        } else {
            Vec::new()
        }
    }

    /// Sets pin `pin` of register `sr_index` low, leaving its other pins as
    /// they are; nothing changes when there is no such register. Returns the
    /// signals as [`Shifter::set`] does.
    pub fn set_pin_low(&mut self, sr_index: usize, pin: u8, apply: bool) -> (signals: Vec<Signal>)
        requires
            old(self)@.wf(),
            sr_index < old(self)@.registers.len() ==> (pin as u32) < usize::BITS,
        ensures
            final(self)@ == old(self)@.with_pin_low(sr_index as int, pin),
            final(self)@.wf(),
            sr_index < old(self)@.registers.len() ==> forall|n: usize|
                n < usize::BITS ==> #[trigger] bit_set(final(self)@.registers[sr_index as int].data, n)
                    == (n != pin as usize && bit_set(old(self)@.registers[sr_index as int].data, n)),
            signals@ == if apply {
                final(self)@.signals()
            } else {
                seq![]
            },
    {
        if sr_index < self.shift_registers.len() {
            let word = self.shift_registers[sr_index].data & !(1usize << pin);
            self.store(sr_index, word);
            assert forall|n: usize| n < usize::BITS implies #[trigger] bit_set(word, n) == (n
                != pin as usize && bit_set(old(self)@.registers[sr_index as int].data, n)) by {
                lemma_and_not_bit(old(self)@.registers[sr_index as int].data, pin as usize, n);
            }
        }
        if apply {
            self.apply()
        } else {
            Vec::new()
        }
    }

    /// Flips the polarity: from the next update on, every pin is driven at the
    /// complement of its stored level. The registers' words are not touched.
    pub fn invert(&mut self)
        ensures
            final(self)@ == old(self)@.toggled(),
    {
        self.invert = !self.invert;
    }

    /// How many registers have been added.
    pub fn len(&self) -> (n: usize)
        ensures
            n == self@.registers.len(),
    {
        self.shift_registers.len()
    }

    /// The stored word of register `sr_index`, if there is one.
    pub fn state(&self, sr_index: usize) -> (r: Option<usize>)
        ensures
            r == if sr_index < self@.registers.len() {
                Some(self@.registers[sr_index as int].data)
            } else {
                None::<usize>
            },
    {
        if sr_index < self.shift_registers.len() {
            Some(self.shift_registers[sr_index].data)
        } else {
            None
        }
    }

    /// The number of output pins of register `sr_index`, if there is one.
    pub fn width(&self, sr_index: usize) -> (r: Option<u8>)
        ensures
            r == if sr_index < self@.registers.len() {
                Some(self@.registers[sr_index as int].pins)
            } else {
                None::<u8>
            },
    {
        if sr_index < self.shift_registers.len() {
            Some(self.shift_registers[sr_index].pins)
        } else {
            None
        }
    }

    /// Whether the polarity is inverted.
    pub fn is_inverted(&self) -> (r: bool)
        ensures
            r == self@.inverted,
    {
        self.invert
    }

    /// The signals that shift out every register, bracketed by the latch:
    /// latch low, then for each register in the order added and each of its
    /// pins from 0 up a clock pulse carrying that pin's level (complemented
    /// when the polarity is inverted), then latch high.
    pub fn apply(&self) -> (signals: Vec<Signal>)
        requires
            self@.wf(),
        ensures
            signals@ == self@.signals(),
    {
        let mut out: Vec<Signal> = Vec::new();
        out.push(Signal { line: Line::Latch, high: false });
        let mut i: usize = 0;
        while i < self.shift_registers.len()
            invariant
                i <= self.shift_registers.len(),
                self@.wf(),
                out@ == seq![Signal { line: Line::Latch, high: false }] + chain_pulses(
                    self.shift_registers@.subrange(0, i as int),
                    self.invert,
                ),
            decreases self.shift_registers.len() - i,
        {
            let sr = &self.shift_registers[i];
            assert(self@.registers[i as int].pins as u32 <= usize::BITS);
            shift_out(sr, self.invert, &mut out);
            assert(self.shift_registers@.subrange(0, i + 1).drop_last() =~= self.shift_registers@.subrange(0, i as int));
            i = i + 1;
        }
        assert(self.shift_registers@.subrange(0, i as int) =~= self.shift_registers@);
        out.push(Signal { line: Line::Latch, high: true });
        out
    }
}

} // verus!

//! A model of a chain of daisy-chained serial-in/parallel-out shift registers
//! driven from three digital output lines (data, latch and clock).
//!
//! The library tracks the output word of every register in the chain and
//! computes, for each update, the exact ordered sequence of line transitions
//! that shifts the whole chain out. Driving the physical lines is left to the
//! caller, who performs the returned signals in order.

pub mod register;
pub mod signal;
pub mod shifter;
pub mod laws;

pub use register::ShiftRegister;
pub use signal::{Line, Signal};
pub use shifter::{Shifter, ShifterView};

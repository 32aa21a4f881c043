//! Interrupt-driven SPI master driver for a FIFO-based serial controller,
//! verified against a model of its register block.
use vstd::prelude::*;

pub mod perf;
pub mod registers;
pub mod spi;
pub mod trace;

verus! {

} // verus!

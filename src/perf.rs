//! Performance counters exposed to userspace through a command interface.
use vstd::prelude::*;

verus! {

/// Outcome of a driver command.
#[derive(Clone, Copy, Debug, PartialEq, Eq, Structural)]
pub enum ReturnCode {
    SuccessWithValue { value: usize },
    ENOSUPPORT,
}

/// What a command asks the performance-counter driver for.
pub open spec fn command_result(command_num: usize, mcycle: usize, minstret: usize) -> ReturnCode {
    if command_num == 0 {
        ReturnCode::SuccessWithValue { value: 1 }
    } else if command_num == 1 {
        ReturnCode::SuccessWithValue { value: mcycle }
    } else if command_num == 2 {
        ReturnCode::SuccessWithValue { value: minstret }
    } else {
        ReturnCode::ENOSUPPORT
    }
}

/// Driver giving userspace access to the cycle and retired-instruction counters.
pub struct Perf;

impl Perf {
    /// Control the Perf system.
    ///
    /// - `0`: driver check, answers 1.
    /// - `1`: the cycle counter, read by the caller and handed in as `mcycle`.
    /// - `2`: the number of instructions retired, handed in as `minstret`.
    pub fn command(&self, command_num: usize, mcycle: usize, minstret: usize) -> (r: ReturnCode)
        ensures
            r == command_result(command_num, mcycle, minstret),
    {
        match command_num {
            0 => ReturnCode::SuccessWithValue { value: 1 },
            1 => ReturnCode::SuccessWithValue { value: mcycle },
            2 => ReturnCode::SuccessWithValue { value: minstret },
            _ => ReturnCode::ENOSUPPORT,
        }
    }
}

} // verus!

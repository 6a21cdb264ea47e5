//! Allocation-free-style decimal formatting for unsigned integers, a
//! displayable-value capability, and the entry/panic control-transfer state
//! machine of a second-stage boot stub, all with verified contracts.

pub mod display;
pub mod format;
pub mod machine;

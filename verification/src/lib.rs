//! Keeps a share of the machine's memory and storage occupied, part by part,
//! so that the total use of each resource stays at a set percentage.

pub mod quota;
pub mod memory;
pub mod storage;
pub mod param;
pub mod cpu;

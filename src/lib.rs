//! Raw memory-block primitive: a fixed-size, power-of-two byte region that
//! holds typed values written and read back at caller-chosen positions.

pub mod block;
pub mod bytes;
pub mod data;
pub mod defs;

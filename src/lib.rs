//! Dispatch of sealing jobs over a fixed set of compute devices, and the
//! assembly of the program text that each device compiles.

pub mod config;
pub mod dispatch;
pub mod pool;
pub mod program;
pub mod device;

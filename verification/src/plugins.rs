//! Library provided plugins: each one can refresh a piece of system state
//! and render it as a short text.

pub mod battery;
pub mod cpu;
pub mod mem;
pub mod time;

pub use self::battery::BatPlugin;
pub use self::cpu::CpuPlugin;
pub use self::mem::MemPlugin;
pub use self::time::TimePlugin;

//! A bounded-memory sandbox for WebAssembly modules: a memory limiter for the
//! modules it compiles, and a runner that executes one module under a
//! restricted system interface and captures what it writes to standard output.

pub mod bridge;
pub mod decimal;
pub mod driver;
pub mod fib;
pub mod guest;
pub mod limiter;
pub mod loader;
pub mod runtime;
pub mod sandbox;
pub mod stage;
pub mod targets;

pub use crate::fib::fib;
pub use crate::limiter::LimitingTunables;
pub use crate::loader::{load, load_jit};
pub use crate::sandbox::{run, SandboxSession};

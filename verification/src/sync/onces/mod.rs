//! One-time execution primitives (e.g. [`std::sync::Once`]).
pub mod shared;
pub mod state;

pub use shared::Once;
pub use state::{CallOnceResult, OnceState};

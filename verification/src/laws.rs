//! What the operations are for.
//!
//! Each law speaks of every call: of what goes in, of what comes out, and of how two
//! calls relate. A call of `f` with `args` that gave `out` is written
//! `call_ensures(f, args, out)`.

pub mod api;
pub mod discovery;
pub mod file_logging;
pub mod logging;
pub mod manager;
pub mod text;
pub mod tool;

//! Bootstrap core for a native debugger session: a verified model of
//! platform dynamic-library loading (handles, symbol resolution, and
//! global-vs-local symbol visibility), the fixed load sequence that maps the
//! backend library and the extension module into the process, and the
//! preparation of the single foreign entry call that hands control off.

pub mod laws;
pub mod loader;
pub mod platform;
pub mod sequencer;

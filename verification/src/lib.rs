//! Build post-processing pipeline for a sandboxed scripting platform:
//! resolves build configuration with derived defaults, locates the two
//! generated artifacts, rewrites the generated loader script through
//! anchored structural matching, and applies an optional bytecode
//! optimization pass with graceful degradation on failure.

pub mod errors;
pub mod config;
pub mod text;
pub mod scaffold;
pub mod transform;
pub mod artifacts;
pub mod optimizer;
pub mod cli;
pub mod orchestrate;

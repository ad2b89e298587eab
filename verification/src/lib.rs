//! A launcher library: given the name a launcher binary was invoked as, it
//! locates a same-named TOML configuration, decides whether the invocation
//! directory is a valid project root (possibly searching parent directories),
//! and composes the setup, main and fallback commands to execute.
//!
//! All decision logic lives here, verified; the thin binary around it performs
//! the filesystem probes, environment reads and process spawns that the
//! contracts here take as plain inputs.

pub mod pathstr;
pub mod schema;
pub mod parse;
pub mod rootfind;
pub mod searchpath;
pub mod compose;
pub mod locate;
pub mod dispatch;

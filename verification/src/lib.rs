//! The configuration of the console: what its configuration files and its command line set, which
//! of them prevails, and what follows for charset, colors, retention and diagnostics.

pub mod config;
pub mod duration;
pub mod file;
pub mod laws;
pub mod options;
pub mod outcomes;
pub mod palette;
pub mod reading;
pub mod retain;
pub mod retention;
pub mod scan;
pub mod text;

pub use config::{Config, OptionalCmd};
pub use options::{ColorToggles, ViewOptions};
pub use palette::Palette;

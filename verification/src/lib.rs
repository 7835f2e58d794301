//! Cargo-like console message formatting.
//!
//! Renders status lines in the style of a build tool's progress output: a
//! right-aligned, colorized title column followed by a free-form message,
//! e.g. `   Compiling main.rs`. A line can be built from an explicit
//! (title, message) pair or from a single string whose first word becomes
//! the title; the title color is chosen by name or as an RGB triple.

mod ceprint;
pub mod cformat;
pub mod coloration;
mod cprint;
mod output;
pub mod split;

pub use ceprint::ceprint;
pub use ceprint::ceprint_message;
pub use ceprint::ceprintln;
pub use ceprint::ceprintln_message;
pub use cformat::cformat;
pub use cformat::cformat_message;
pub use cformat::pad_title;
pub use cformat::PAD_WIDTH;
pub use coloration::colorize_string;
pub use coloration::Color;
pub use coloration::DEFAULT_COLOR;
pub use coloration::DEFAULT_ERROR_COLOR;
pub use cprint::cprint;
pub use cprint::cprint_message;
pub use cprint::cprintln;
pub use cprint::cprintln_message;
pub use output::OutputError;
pub use split::is_whitespace_char;
pub use split::leading_whitespace;
pub use split::split_title_message;

//! A CHIP-8 interpreter core: the machine's state, the loader for textual
//! program sources, the instruction semantics, the fetch and execute cycle
//! and the formatting of diagnostic dumps.

pub mod chip8;
pub mod diagnostics;
pub mod dispatcher;
pub mod instruction;
pub mod loader;
pub mod machine;
pub mod opcodes;

pub use crate::chip8::{Chip8, LoadWarning};
pub use crate::diagnostics::{DiagnosticsWriter, WriteMode};
pub use crate::dispatcher::{FaultReport, Halt};
pub use crate::opcodes::{Action, Fault};

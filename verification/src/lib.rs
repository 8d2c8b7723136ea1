//! Construction and execution protocol for QSPI flash operations that run on
//! an attached target through its remote bytecode interpreter.
//!
//! A request is turned into an [`Operation`] by [`plan`]: the action is
//! selected, its function is looked up in the target's function table and its
//! signature checked, the bytes to write are read, the parameters are
//! validated, and the instructions are laid out. Nothing of that touches the
//! target. The execution of the operation is then driven by [`driver::step`],
//! one report at a time.

pub mod action;
pub mod builder;
pub mod bytes;
pub mod catalog;
pub mod driver;
pub mod error;
pub mod instruction;

pub use action::{Action, ActionKind, QspiArgs};
pub use builder::{encode, plan};
pub use catalog::{FunctionCatalog, FunctionDescriptor};
pub use error::QspiError;
pub use instruction::{Instruction, Operation};

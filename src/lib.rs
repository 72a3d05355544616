//! An execution engine for WebAssembly smart contracts: the wire codec for
//! typed values, the runtime bridge that hands data to guest memory, the
//! call stack of nested contract invocations, and module validation.

pub mod data_entry;
pub mod env;
pub mod error;
pub mod exec;
pub mod node;
pub mod runtime;
pub mod vm;

pub use error::{Error, ExecutableError, JvmError, RuntimeError};

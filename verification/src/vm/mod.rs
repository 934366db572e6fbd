//! The script virtual machine.

pub mod error;
pub mod instruction;
pub mod laws;
pub mod machine;
pub mod program;
pub mod scope;
pub mod state;
pub mod value;

pub use error::{Error, Suspend};
pub use scope::Scope;
pub use value::Value;
pub use program::{PredefinedProc, Procedure, Program};
pub use machine::{BinaryOp, Env, Flow, Frame, Machine, UnaryOp};
pub use state::{Context, ProgramState, Vm};

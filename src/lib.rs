//! Name-based resolution and index-based dispatch for native functions
//! exposed to a wasmi virtual machine.
//!
//! A [`BindingUnit`] lists the native functions of one import surface. Each
//! declaration carries its external name, its dispatch ordinal and the value
//! type of every parameter and of the result. From it the library derives the
//! two paths the machine needs: `resolve`, used once per import while linking,
//! which checks a requested signature and hands out an ordinal-bearing
//! reference; and `prepare_call` / `NativeCall::complete`, used on every call, which
//! unmarshal the arguments for the native function and check its result.

pub mod decl;
pub mod dispatch;
pub mod laws;
pub mod resolve;
pub mod value;

pub use dispatch::{NativeCall, Trap};
pub use decl::{BindingUnit, FuncDecl, Param};
pub use resolve::{FuncRef, ResolveError};
pub use value::{Signature, SignatureView, Value, ValueTag};

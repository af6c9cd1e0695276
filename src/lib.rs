//! Code generation for exposing host types to an embedded Lua runtime.
//!
//! Each generator takes a plain description of a declaration (its fields,
//! variants or methods) and produces the source text of the registration
//! glue, which a macro front end turns back into tokens.

use vstd::prelude::*;

pub mod text;
pub mod structure;
pub mod enumeration;
pub mod implementation;
pub mod compile;
pub mod load;

pub use structure::{structure, FieldDesc};
pub use enumeration::{enumeration, NamedField, VariantDesc, VariantFields};
pub use implementation::{implementation, FnInput, ImplMember, MethodDesc};
pub use compile::{compile, CompileArgs};
pub use load::{load, LoadInput};

verus! {

/// Why a declaration cannot be turned into glue code.
#[derive(Debug, Clone, Copy, PartialEq, Eq, Structural)]
pub enum GenError {
    /// A struct field has no name (tuple structs are not supported).
    UnnamedField,
    /// The final hookup was asked for without naming the type.
    MissingTypePath,
}

} // verus!

//! Generates the method bindings of a smart contract from its ABI.
//!
//! Generation runs in two phases: each ABI function is first resolved into a
//! record (identifier, signature, selector, input and output types), and the
//! records are then rendered into Rust source text.
pub mod abi;
pub mod text;
pub mod types;
pub mod names;
pub mod signature;
pub mod params;
pub mod methods;

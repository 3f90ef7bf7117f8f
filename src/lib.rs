//! A register-map compiler for memory-mapped peripheral register blocks.
//!
//! A register block is declared as a list of fields, each with a byte offset
//! and an access mode. The library checks that no two fields alias the same
//! offset in a way that hardware cannot support, and turns the fields into
//! accessor bindings whose operation set depends on the access mode.
//! The accessor kinds themselves act on a simulated register file, whose
//! contents are modelled as a map from absolute address to register value.
pub mod accessor;
pub mod address;
pub mod block;
pub mod generate;
pub mod mode;
pub mod validate;

pub use accessor::{RC, RO, RW, RegisterFile, RegisterValue, WC, WO};
pub use address::{BaseAddress, ConstantAddress};
pub use block::{Accessor, RegisterBlock};
pub use generate::{compile_block, AccessorBinding, BlockSpec, FieldSpec, Operation};
pub use mode::{parse_access_mode, AccessMode};
pub use validate::{validate, FieldDescriptor, RegisterMapError};

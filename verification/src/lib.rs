//! Vox: the verified core of the Vo toolchain front end.
//!
//! The library holds the logic that turns compiled bytecode and parsed
//! syntax trees into their text forms, the handle tables that give scripts
//! opaque ids for compiled modules, parsed trees and running GUI guests,
//! the byte-level argument and reply encoding of the standalone exports,
//! and the decisions that the extern entry points take around each
//! compile, run and scaffold request.

pub mod text;
pub mod bytecode;
pub mod format;
pub mod reader;
pub mod text_layout;
pub mod section_lines;
pub mod operand_order;
pub mod ast;
pub mod printer;
pub mod printed_lines;
pub mod separators;
pub mod handles;
pub mod wire;
pub mod standalone;
pub mod gui;
pub mod ffi;

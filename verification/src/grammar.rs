//! The vocabulary of the language: token kinds, literal values and the
//! abstract syntax.

pub mod const_type;
pub mod semantic_node;
pub mod token_type;

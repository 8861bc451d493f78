//! Front and middle end of a compiler for a small C-like language.
//!
//! A source text is cut into lexemes by a finite automaton ([`fda`],
//! [`lexer`]). The tokens go through four passes that share one tree
//! shape: a table-driven predictive parser builds the parse tree
//! ([`cfg`], [`syntax`]), the parse tree is folded into the abstract
//! syntax tree ([`ast_builder`]), the semantic analysis resolves names
//! and checks types with a stack of scopes ([`semantic`],
//! [`scope_stack`]), and the code generation emits three-address code
//! ([`code_generation`], [`code_attrs`]).
//!
//! Every executable function has a contract over the mathematical
//! values of its arguments. What holds of a pass as a whole is stated
//! as a proof function: the parser finds exactly the parse trees of the
//! grammar ([`derivation`]), the analysis keeps the discipline of the
//! scope stack ([`scope_discipline`]), the same tree always gives the
//! same code, and a `break` jumps to the end of the loop around it
//! ([`break_target`]).

pub mod ast_builder;
pub mod break_target;
pub mod cfg;
pub mod code_attrs;
pub mod code_generation;
pub mod derivation;
pub mod expression;
pub mod expression_builder;
pub mod fda;
pub mod grammar;
pub mod grammar_file;
pub mod lexer;
pub mod lines;
pub mod name_map;
pub mod scope_discipline;
pub mod scope_stack;
pub mod semantic;
pub mod semantic_error;
pub mod syntax;
pub mod text;
pub mod token;
pub mod tree_dump;

//! A small ahead-of-time transpiler core: it lowers a rule-tagged parse tree
//! into a typed abstract syntax tree, and generates a complete C translation
//! unit from that tree.  Operator chains are kept in left-fold form, function
//! definitions are hoisted into a declaration section, and import directives
//! are collected into an include section.

pub mod ast_builder;
pub mod ast_nodes;
pub mod codegen;
pub mod laws;
pub mod parse_tree;
pub mod pretty;
pub mod text;

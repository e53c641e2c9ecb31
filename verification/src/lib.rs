//! The front end of a small statically typed scripting language: a scanner, a
//! recursive-descent parser that fills a symbol table while it builds the syntax tree,
//! and a checker that infers and validates the type of every expression and statement;
//! and, for what comes after it, a generator of target-language text and a printer of
//! the syntax tree.
//!
//! The executable functions have contracts over mathematical models of their data: the
//! scanner over `lexer::scan`, the parser over the functions of `grammar`, the table
//! over `table::TableView`, the checker over `semantic::check_statement`, and the two
//! renderers over `generator::python_statement` and `tree_display::tree_statement`.

pub mod chars;
pub mod compile;
pub mod generator;
pub mod gramatic;
pub mod grammar;
pub mod lexer;
pub mod order;
pub mod parse_expr;
pub mod parse_stmt;
pub mod parse_type;
pub mod semantic;
pub mod sintax;
pub mod table;
pub mod table_laws;
pub mod text;
pub mod tree_display;
pub mod visitor;

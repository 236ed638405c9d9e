//! An embeddable evaluator for calculator-style expression trees.
//!
//! The evaluator walks an [`ast::Expr`], resolves identifiers against a
//! mode-dependent builtin table layered over a [`scope::Scope`], hands the
//! arithmetic to an implementation of [`num::Number`], and polls an
//! [`interrupt::Interrupt`] before it visits each node. [`exact::Exact`] is
//! a number of bounded size to evaluate with; [`theorems`] holds what is
//! proved of every evaluation; [`file_paths`] decides where the program
//! around the evaluator keeps its files.

pub mod err;
pub mod interrupt;
pub mod num;
pub mod exact;
pub mod value;
pub mod scope;
pub mod ast;
pub mod theorems;
pub mod file_paths;

//! The checking and evaluation core of a small dependently-typed language:
//! core terms and semantic values with their reduction rules, the shared
//! environment used for substitution, the elaboration state, the evaluator
//! from abstract syntax to values, and the declaration-checking protocol,
//! together with the surface parser and the desugarer that feed it.

pub mod base;
pub mod env;
pub mod term;
pub mod val;
pub mod abs;
pub mod state;
pub mod eval;
pub mod check;
pub mod decl;
pub mod surf;
pub mod trans;

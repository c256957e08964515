//! Symbolic differentiation of expression trees in one variable.
//!
//! An [`Expression`] is built from constants, the variable, six elementary
//! functions, sums and products. [`Expression::diff`] returns the tree of
//! its derivative, obtained by the chain, sum and product rules alone: the
//! result is never simplified and never evaluated.

pub mod term;
pub mod expression;
pub mod diff;
pub mod equality;
pub mod laws;

pub use diff::DiffBase;
pub use expression::{Add, Base, Cos, Exp, Expression, Log, Mul, Pow, Scaler, Sin, Tan, X};
pub use term::Term;

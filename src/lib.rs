//! Exact fraction arithmetic over `i64` scalars, with cross-multiplication
//! equality and no reduction to lowest terms, plus a small text utility that
//! counts adjacent repeated characters.
pub mod rational;
pub mod doubles;

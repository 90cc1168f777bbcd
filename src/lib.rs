//! A desktop calculator's input logic: a text buffer edited one keystroke at a
//! time, evaluated as an arithmetic expression, with division by a literal zero
//! shown as an error token.

pub mod expr;
pub mod calculator;

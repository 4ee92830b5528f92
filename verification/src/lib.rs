//! The logic of a line-oriented calculator for expressions of the form
//! `number operator number`.
//!
//! The crate splits a line into its fields, decides whether the line is a
//! well-formed expression, and says which operation is to be carried out on
//! which operands, or which error is to be reported. Operands are carried as
//! IEEE 754 binary64 bit patterns; reading a number from text and the
//! arithmetic on the numbers themselves are left to the caller.
//!
//! - [`whitespace`], [`words`] and [`trim`] deal with text: which characters
//!   separate fields, which fields a line holds, and what a line is without
//!   the whitespace around it. [`fields`] proves what whitespace does to the
//!   fields of a line.
//! - [`operator`], [`operand`] and [`error`] hold the values that an
//!   evaluation speaks of.
//! - [`expression`] evaluates a line.
//! - [`command`] recognizes the line that asks to stop.

pub mod command;
pub mod error;
pub mod expression;
pub mod fields;
pub mod operand;
pub mod operator;
pub mod trim;
pub mod whitespace;
pub mod words;

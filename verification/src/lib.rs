//! The verified core of a small console calculator and two greeting programs:
//! reading the menu choice, choosing the operation, and composing every line
//! of text the programs show.

pub mod calculator;
pub mod decimal;
pub mod greeting;
pub mod operation;
pub mod selection;
pub mod whitespace;

//! The engine of a four-function calculator: digit and decimal-point entry,
//! one pending binary operator evaluated left to right, and the two strings a
//! front end shows after every event (the active number and the running
//! formula).
//!
//! Numbers are held here as the text that is shown. The floating-point values
//! behind them, and the arithmetic on them, belong to the caller, which hands
//! the rendered text of each operand and result to the engine.

mod calculator;
pub mod laws;
mod operator;
mod state;
mod text;

pub use calculator::Calculator;
pub use operator::Operator;
pub use state::CalcState;
pub use text::trim_decimal;

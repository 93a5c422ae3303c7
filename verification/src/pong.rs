//! Pong: match flow, score keeping, score text, the field and bar input.
pub mod field;
pub mod flow;
pub mod input;
pub mod score;

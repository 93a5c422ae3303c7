//! Game rules of two paddle games, Pong and Breakout, as plain values with
//! verified contracts. Rendering, input devices, audio, randomness and the
//! floating-point kinematics live with the engine around this library.
pub mod breakout;
pub mod controls;
pub mod interaction;
pub mod pong;

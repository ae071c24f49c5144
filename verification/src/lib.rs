//! The control core of a real-time audio engine: commands, track and
//! master parameters, transport and step timing, and the look-ahead delay
//! line, each with a machine-checked contract.

pub mod command;
pub mod delay;
pub mod effects;
pub mod engine;
pub mod fixed;
pub mod frame;
pub mod laws;
pub mod queue;
pub mod tracks;
pub mod transport;

//! Wire-level encoding and decoding of single Z-Wave command frames.
//!
//! The crate is the middle layer of a Z-Wave stack. It knows the catalog of
//! command classes, the scale codes of meter readings, and the byte layout of
//! one frame. It opens no transport and keeps no state: every function maps
//! plain values to plain values, and each one carries a contract that pins
//! its result.

pub mod cmds;
pub mod error;

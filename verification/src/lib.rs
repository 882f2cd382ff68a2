//! A small terminal toolkit: key decoding, ANSI styling, cursor control
//! sequences and the state machine behind interactive selection prompts.
//!
//! The library performs no input or output itself. It computes the text a
//! caller writes to the terminal and the decisions a caller makes on what it
//! has read.

pub mod control;
pub mod input;
pub mod read;
pub mod styled;
pub mod text;

//! Decoder and display interpreter for RIPscrip, a text-framed
//! vector-graphics command protocol.
//!
//! Bytes go in at [`parser`], which frames batches and decodes each command
//! into a [`command::Command`]; [`stream`] does the same for input that
//! arrives in chunks, and [`wire`] writes commands back out. [`render`]
//! applies commands to the display state and says what to ask of a canvas.

pub mod command;
pub mod error;
pub mod flags;
pub mod parser;
pub mod render;
pub mod stream;
pub mod structs;
pub mod wire;

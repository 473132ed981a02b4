//! Decision logic of a badge station: a camera loop that scans QR codes and
//! streams previews, and a print job that sends a received badge image to a
//! printer.
//!
//! The crate performs no input or output. Each workflow is a state machine
//! that names the next operation to perform and is told how it went.

pub mod capture;
pub mod capture_laws;
pub mod codec;
pub mod event;
pub mod greeting;
pub mod print;
pub mod print_laws;
pub mod text;

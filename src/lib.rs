//! The decision core of the Yippee browser shell.
//!
//! The shell sits between a native window (its input events) and a web engine
//! (its embedder events and messages). This crate holds what the shell decides:
//! which engine events a window event becomes, how engine messages change the
//! shell's state and the window, and what is done at the end of each pump.
//! Performing those decisions (talking to the window and to the engine) is left
//! to the embedding program.
pub mod engine;
pub mod shell;
pub mod status;
pub mod translate;
pub mod window;

pub use shell::Yippee;
pub use status::Status;

//! One module per page of the client: each holds the page's local state,
//! its message type, the command it may ask the binary to perform, and the
//! update function that routes a message to the next state and command.
pub mod chat;
pub mod dashboard;
pub mod ocr;
pub mod pantry;
pub mod settings;

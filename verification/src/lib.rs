//! Household-assistant client core: page state machines, request and
//! response handling, settings, and date/path helpers.
//!
//! All business logic lives in a remote backend reached over HTTP; this
//! library holds the client-side state and the decisions the client makes.
//! Performing the HTTP calls, rendering, and persistence are left to the
//! binary around it, which drives the state machines here and feeds the
//! results back in as messages.
pub mod api;
pub mod config;
pub mod dates;
pub mod errors;
pub mod helpers;
pub mod messages;
pub mod models;
pub mod pages;
pub mod sandbox;
pub mod state;
pub mod text;

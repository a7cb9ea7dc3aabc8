//! The application-level message type, the pages it routes to, and the
//! commands the binary performs between updates.
use vstd::prelude::*;

use crate::config::AppSettings;
use crate::pages::{chat, dashboard, ocr, pantry, settings};

verus! {

/// Application pages.
#[derive(Debug, Clone, Copy, PartialEq, Eq, Structural)]
pub enum Page {
    Dashboard,
    Chat,
    Pantry,
    OCR,
    Settings,
}

/// Main application message enum.
#[derive(Debug, PartialEq, Eq)]
pub enum Message {
    /// Navigation messages.
    NavigateTo(Page),
    /// Dashboard messages.
    Dashboard(dashboard::DashboardMessage),
    /// Chat messages.
    Chat(chat::ChatMessage),
    /// Pantry messages.
    Pantry(pantry::PantryMessage),
    /// OCR messages.
    OCR(ocr::OCRMessage),
    /// Settings messages.
    Settings(settings::SettingsMessage),
    /// Config messages.
    Config(AppSettings),
    /// Close the window.
    Close,
    /// Minimize the window.
    Minimize,
    /// Error handling.
    Error(String),
}

/// What the binary is asked to perform after one application update.
#[derive(Debug, PartialEq, Eq)]
pub enum Command {
    /// Nothing.
    NoOp,
    /// A dashboard command.
    Dashboard(dashboard::Command),
    /// A chat command.
    Chat(chat::Command),
    /// A pantry command.
    Pantry(pantry::Command),
    /// An OCR command.
    OCR(ocr::Command),
    /// A settings command.
    Settings(settings::Command),
    /// Fetch the weather for the dashboard just entered; a failure is fed
    /// back as an application error.
    FetchWeatherOnEnter,
    /// Fetch the items for the pantry page just entered; a failure is fed
    /// back as an application error.
    FetchPantryOnEnter,
    /// Rebuild the backend client against this URL.
    RebuildClient { backend_url: String },
    /// Quit the application.
    Quit,
    /// Minimize the window.
    Minimize,
}

} // verus!

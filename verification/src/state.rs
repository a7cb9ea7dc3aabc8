//! The whole application's state and the update function that routes every
//! message to its page.
use vstd::prelude::*;
use std::collections::HashMap;

use crate::config::AppSettings;
use crate::errors::{api_error_text, ApiError};
use crate::messages::{Command, Message, Page};
use crate::models::{FoodItem, WeatherData};
use crate::pages::{chat, dashboard, ocr, pantry, settings};

verus! {

/// Flags handed to the application at start-up.
#[derive(Debug)]
pub struct Flags {}

impl Default for Flags {
    fn default() -> (r: Self)
        ensures
            r == (Flags {  }),
    {
        Flags {  }
    }
}

/// Main application state.
#[derive(Debug)]
pub struct AppState {
    /// Current active page.
    pub current_page: Page,
    /// Application settings.
    pub settings: AppSettings,
    /// Loading states for different operations.
    pub loading_states: HashMap<String, bool>,
    /// Error state.
    pub error_state: Option<String>,
    /// Dashboard state.
    pub dashboard_state: dashboard::State,
    /// Chat state.
    pub chat_state: chat::State,
    /// Pantry state.
    pub pantry_state: pantry::State,
    /// OCR state.
    pub ocr_state: ocr::State,
    /// Settings state.
    pub settings_state: settings::State,
}

impl Default for AppState {
    fn default() -> (r: Self)
        ensures
            r.current_page == Page::Dashboard,
            r.settings.is_default(),
            r.loading_states@ == Map::<String, bool>::empty(),
            r.error_state is None,
            r.dashboard_state.is_initial(),
            r.chat_state.is_initial(),
            r.pantry_state.is_initial(),
            r.ocr_state.is_initial(),
            r.settings_state.is_initial(),
    {
        AppState {
            current_page: Page::Dashboard,
            settings: AppSettings::default(),
            loading_states: HashMap::new(),
            error_state: None,
            dashboard_state: dashboard::State::default(),
            chat_state: chat::State::default(),
            pantry_state: pantry::State::default(),
            ocr_state: ocr::State::default(),
            settings_state: settings::State::default(),
        }
    }
}

/// The command entering a page triggers: the dashboard fetches the
/// weather, the pantry loads its items, the rest ask for nothing. These
/// fetches differ from the pages' own refreshes: when one fails, the error
/// is surfaced application-wide rather than retried or swallowed (see
/// `nav_weather_outcome_message` and `nav_pantry_outcome_message`).
pub open spec fn nav_command(page: Page) -> Command {
    match page {
        Page::Dashboard => Command::FetchWeatherOnEnter,
        Page::Pantry => Command::FetchPantryOnEnter,
        _ => Command::NoOp,
    }
}

/// How one message takes the application from `pre` to `post`, asking for
/// `cmd`; `now` stamps any conversation entry the message adds.
pub open spec fn update_rel(
    pre: AppState,
    msg: Message,
    now: i64,
    post: AppState,
    cmd: Command,
) -> bool {
    match msg {
        Message::NavigateTo(page) => {
            &&& post == AppState { current_page: page, ..pre }
            &&& cmd == nav_command(page)
        },
        Message::Dashboard(m) => {
            &&& post == AppState { dashboard_state: post.dashboard_state, ..pre }
            &&& cmd matches Command::Dashboard(pc) && dashboard::update_rel(
                pre.dashboard_state,
                m,
                post.dashboard_state,
                pc,
            )
        },
        Message::Chat(m) => {
            &&& post == AppState { chat_state: post.chat_state, ..pre }
            &&& cmd matches Command::Chat(pc) && chat::update_rel(
                pre.chat_state,
                m,
                now,
                post.chat_state,
                pc,
            )
        },
        Message::Pantry(m) => {
            &&& post == AppState { pantry_state: post.pantry_state, ..pre }
            &&& cmd matches Command::Pantry(pc) && pantry::update_rel(
                pre.pantry_state,
                m,
                post.pantry_state,
                pc,
            )
        },
        Message::OCR(m) => {
            &&& post == AppState { ocr_state: post.ocr_state, ..pre }
            &&& cmd matches Command::OCR(pc) && ocr::update_rel(pre.ocr_state, m, post.ocr_state, pc)
        },
        Message::Settings(m) => {
            &&& post == AppState { settings_state: post.settings_state, settings: post.settings, ..pre }
            &&& cmd matches Command::Settings(pc) && settings::update_rel(
                pre.settings_state,
                pre.settings,
                m,
                post.settings_state,
                post.settings,
                pc,
            )
        },
        Message::Config(new_settings) => {
            &&& post == AppState { settings: new_settings, ..pre }
            &&& cmd matches Command::RebuildClient { backend_url } && backend_url
                == new_settings.backend_url
        },
        Message::Close => {
            &&& post == pre
            &&& cmd is Quit
        },
        Message::Minimize => {
            &&& post == pre
            &&& cmd is Minimize
        },
        Message::Error(e) => {
            &&& post == AppState { error_state: Some(e), ..pre }
            &&& cmd is NoOp
        },
    }
}

impl AppState {
    /// Activate a page and trigger what entering it loads.
    pub fn on_nav_select(&mut self, page: Page) -> (cmd: Command)
        ensures
            *final (self) == (AppState { current_page: page, ..*old(self) }),
            cmd == nav_command(page),
    {
        self.current_page = page;
        match page {
            Page::Dashboard => Command::FetchWeatherOnEnter,
            Page::Pantry => Command::FetchPantryOnEnter,
            _ => Command::NoOp,
        }
    }

    /// Route one message to its page and hand back the command the binary
    /// is to perform.
    pub fn update(&mut self, message: Message, now: i64) -> (cmd: Command)
        ensures
            update_rel(*old(self), message, now, *final (self), cmd),
    {
        match message {
            Message::NavigateTo(page) => self.on_nav_select(page),
            Message::Dashboard(m) => Command::Dashboard(
                dashboard::update(&mut self.dashboard_state, m),
            ),
            Message::Chat(m) => Command::Chat(chat::update(&mut self.chat_state, m, now)),
            Message::Pantry(m) => Command::Pantry(pantry::update(&mut self.pantry_state, m)),
            Message::OCR(m) => Command::OCR(ocr::update(&mut self.ocr_state, m)),
            Message::Settings(m) => Command::Settings(
                settings::update(&mut self.settings_state, m, &mut self.settings),
            ),
            Message::Config(new_settings) => {
                self.settings = new_settings;
                Command::RebuildClient { backend_url: self.settings.backend_url.clone() }
            },
            Message::Close => Command::Quit,
            Message::Minimize => Command::Minimize,
            Message::Error(error_message) => {
                self.error_state = Some(error_message);
                Command::NoOp
            },
        }
    }
}

/// The message the application starts with: refresh the dashboard weather.
pub fn initial_message() -> (m: Message)
    ensures
        m == Message::Dashboard(dashboard::DashboardMessage::RefreshWeather),
{
    Message::Dashboard(dashboard::DashboardMessage::RefreshWeather)
}

/// The message a nav-triggered weather fetch feeds back: the data for the
/// dashboard where the call succeeded, an application error carrying the
/// error's text where it failed.
pub fn nav_weather_outcome_message(result: Result<WeatherData, ApiError>) -> (m: Message)
    ensures
        match result {
            Ok(w) => m == Message::Dashboard(dashboard::DashboardMessage::WeatherLoaded(w)),
            Err(e) => m matches Message::Error(s) && s@ == api_error_text(e),
        },
{
    match result {
        Ok(w) => Message::Dashboard(dashboard::DashboardMessage::WeatherLoaded(w)),
        Err(e) => Message::Error(e.message()),
    }
}

/// The message a nav-triggered pantry fetch feeds back: the items for the
/// pantry page where the call succeeded, an application error carrying the
/// error's text where it failed.
pub fn nav_pantry_outcome_message(result: Result<Vec<FoodItem>, ApiError>) -> (m: Message)
    ensures
        match result {
            Ok(items) => m == Message::Pantry(pantry::PantryMessage::ItemsLoaded(items)),
            Err(e) => m matches Message::Error(s) && s@ == api_error_text(e),
        },
{
    match result {
        Ok(items) => Message::Pantry(pantry::PantryMessage::ItemsLoaded(items)),
        Err(e) => Message::Error(e.message()),
    }
}

} // verus!

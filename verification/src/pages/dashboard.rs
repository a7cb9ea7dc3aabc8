//! The dashboard page: weather summary and recent activities.
use vstd::prelude::*;

use crate::errors::ApiError;
use crate::messages::Page;
use crate::models::WeatherData;

verus! {

/// Dashboard state.
#[derive(Debug)]
pub struct State {
    /// Weather data.
    pub weather: Option<WeatherData>,
    /// Recent activities.
    pub recent_activities: Vec<String>,
    /// Loading state.
    pub loading: bool,
}

impl State {
    /// The state the page starts in: nothing loaded, nothing pending.
    pub open spec fn is_initial(self) -> bool {
        &&& self.weather is None
        &&& self.recent_activities@ == Seq::<String>::empty()
        &&& !self.loading
    }
}

impl Default for State {
    fn default() -> (r: Self)
        ensures
            r.is_initial(),
    {
        State { weather: None, recent_activities: Vec::new(), loading: false }
    }
}

/// Dashboard messages.
#[derive(Debug, PartialEq, Eq)]
pub enum DashboardMessage {
    /// Weather data loaded.
    WeatherLoaded(WeatherData),
    /// Refresh weather data.
    RefreshWeather,
    /// Navigate to page.
    NavigateToPage(Page),
}

/// What the binary is asked to perform after an update.
#[derive(Debug, PartialEq, Eq)]
pub enum Command {
    /// Nothing.
    NoOp,
    /// Fetch fresh weather data from the backend.
    FetchWeather,
}

/// How one message takes the page from `pre` to `post`, asking for `cmd`.
pub open spec fn update_rel(pre: State, msg: DashboardMessage, post: State, cmd: Command) -> bool {
    match msg {
        DashboardMessage::WeatherLoaded(w) => {
            &&& post.weather == Some(w)
            &&& post.recent_activities == pre.recent_activities
            &&& !post.loading
            &&& cmd == Command::NoOp
        },
        DashboardMessage::RefreshWeather => {
            &&& post.weather == pre.weather
            &&& post.recent_activities == pre.recent_activities
            &&& post.loading
            &&& cmd == Command::FetchWeather
        },
        DashboardMessage::NavigateToPage(_) => {
            &&& post == pre
            &&& cmd == Command::NoOp
        },
    }
}

/// Update dashboard state.
pub fn update(state: &mut State, message: DashboardMessage) -> (cmd: Command)
    ensures
        update_rel(*old(state), message, *final (state), cmd),
{
    match message {
        DashboardMessage::WeatherLoaded(weather) => {
            state.weather = Some(weather);
            state.loading = false;
            Command::NoOp
        },
        DashboardMessage::RefreshWeather => {
            state.loading = true;
            Command::FetchWeather
        },
        DashboardMessage::NavigateToPage(_) => Command::NoOp,
    }
}

/// The message a finished weather fetch feeds back: the data where the call
/// succeeded, another refresh where it failed.
pub fn weather_outcome_message(result: Result<WeatherData, ApiError>) -> (m: DashboardMessage)
    ensures
        match result {
            Ok(w) => m == DashboardMessage::WeatherLoaded(w),
            Err(_) => m == DashboardMessage::RefreshWeather,
        },
{
    match result {
        Ok(w) => DashboardMessage::WeatherLoaded(w),
        Err(_) => DashboardMessage::RefreshWeather,
    }
}

} // verus!

use myappassistant::errors::ApiError;
use myappassistant::models::{ChatResponse, FoodItem, OCRItem, OCRResult, WeatherData};
use myappassistant::pages::{chat, dashboard, ocr, pantry, settings};
use myappassistant::config::{AppSettings, ThemeMode};

fn item(name: &str, category: &str) -> FoodItem {
    FoodItem {
        id: name.to_string(),
        name: name.to_string(),
        category: category.to_string(),
        expiration_date: None,
        quantity: 1,
    }
}

fn sample_weather() -> WeatherData {
    WeatherData {
        temperature: 215,
        description: "clear".to_string(),
        humidity: 40,
        wind_speed: 120,
        location: "Home".to_string(),
    }
}

#[test]
fn chat_send_pushes_the_user_message_and_clears_input() {
    let mut state = chat::State::default();
    chat::update(&mut state, chat::ChatMessage::InputChanged("Hello".to_string()), 10);
    let cmd = chat::update(&mut state, chat::ChatMessage::SendMessage, 11);
    assert_eq!(state.messages.len(), 1);
    assert_eq!(state.messages[0].content, "Hello");
    assert!(state.messages[0].is_user);
    assert_eq!(state.messages[0].timestamp, 11);
    assert_eq!(state.messages[0].agent, None);
    assert!(state.loading);
    assert_eq!(state.input_text, "");
    // A first message travels without context.
    assert_eq!(cmd, chat::Command::Send { prompt: "Hello".to_string(), context: None });
}

#[test]
fn chat_send_renders_the_recent_context() {
    let mut state = chat::State::default();
    chat::update(&mut state, chat::ChatMessage::InputChanged("Hello".to_string()), 1);
    chat::update(&mut state, chat::ChatMessage::SendMessage, 1);
    let reply = ChatResponse { response: "Hi".to_string(), model: "assistant".to_string() };
    chat::update(&mut state, chat::ChatMessage::MessageReceived(reply), 2);
    assert!(!state.loading);
    assert_eq!(state.messages.len(), 2);
    assert_eq!(state.messages[1].agent, Some("assistant".to_string()));

    chat::update(&mut state, chat::ChatMessage::InputChanged("Again".to_string()), 3);
    let cmd = chat::update(&mut state, chat::ChatMessage::SendMessage, 3);
    assert_eq!(
        cmd,
        chat::Command::Send {
            prompt: "Again".to_string(),
            context: Some("User: Hello\nAssistant: Hi\nUser: Again".to_string()),
        }
    );
}

#[test]
fn chat_context_keeps_only_the_last_five_messages() {
    let mut state = chat::State::default();
    for (i, text) in ["a", "b", "c", "d", "e"].iter().enumerate() {
        chat::update(&mut state, chat::ChatMessage::InputChanged(text.to_string()), i as i64);
        chat::update(&mut state, chat::ChatMessage::SendMessage, i as i64);
        let reply = ChatResponse { response: text.to_uppercase(), model: "m".to_string() };
        chat::update(&mut state, chat::ChatMessage::MessageReceived(reply), i as i64);
    }
    assert_eq!(state.messages.len(), 10);
    chat::update(&mut state, chat::ChatMessage::InputChanged("f".to_string()), 9);
    let cmd = chat::update(&mut state, chat::ChatMessage::SendMessage, 9);
    // Eleven messages now; the context holds the last five only, the new
    // user message among them.
    let expected = "User: d\nAssistant: D\nUser: e\nAssistant: E\nUser: f".to_string();
    assert_eq!(cmd, chat::Command::Send { prompt: "f".to_string(), context: Some(expected) });
}

#[test]
fn chat_ignores_blank_or_busy_sends() {
    let mut state = chat::State::default();
    chat::update(&mut state, chat::ChatMessage::InputChanged("   \t ".to_string()), 0);
    let cmd = chat::update(&mut state, chat::ChatMessage::SendMessage, 0);
    assert_eq!(cmd, chat::Command::NoOp);
    assert_eq!(state.messages.len(), 0);
    assert_eq!(state.input_text, "   \t ");

    let mut busy = chat::State::default();
    chat::update(&mut busy, chat::ChatMessage::InputChanged("Hello".to_string()), 0);
    busy.loading = true;
    let cmd = chat::update(&mut busy, chat::ChatMessage::SendMessage, 0);
    assert_eq!(cmd, chat::Command::NoOp);
    assert_eq!(busy.messages.len(), 0);
}

#[test]
fn chat_clear_and_focus() {
    let mut state = chat::State::default();
    chat::update(&mut state, chat::ChatMessage::InputChanged("Hello".to_string()), 0);
    chat::update(&mut state, chat::ChatMessage::SendMessage, 0);
    assert_eq!(chat::update(&mut state, chat::ChatMessage::FocusInput, 0), chat::Command::NoOp);
    assert_eq!(state.messages.len(), 1);
    assert_eq!(chat::update(&mut state, chat::ChatMessage::ClearChat, 0), chat::Command::NoOp);
    assert_eq!(state.messages.len(), 0);
}

#[test]
fn chat_response_message_wraps_success_and_failure() {
    let m = chat::response_message(Ok("fine".to_string()));
    match m {
        chat::ChatMessage::MessageReceived(r) => {
            assert_eq!(r.response, "fine");
            assert_eq!(r.model, "assistant");
        },
        other => panic!("unexpected message: {:?}", other),
    }
    let m = chat::response_message(Err(ApiError::HttpError(500)));
    match m {
        chat::ChatMessage::MessageReceived(r) => {
            assert_eq!(r.response, "Error: HTTP error: 500");
            assert_eq!(r.model, "error");
        },
        other => panic!("unexpected message: {:?}", other),
    }
}

#[test]
fn dashboard_refresh_and_load() {
    let mut state = dashboard::State::default();
    let cmd = dashboard::update(&mut state, dashboard::DashboardMessage::RefreshWeather);
    assert_eq!(cmd, dashboard::Command::FetchWeather);
    assert!(state.loading);
    let cmd = dashboard::update(
        &mut state,
        dashboard::DashboardMessage::WeatherLoaded(sample_weather()),
    );
    assert_eq!(cmd, dashboard::Command::NoOp);
    assert!(!state.loading);
    assert_eq!(state.weather, Some(sample_weather()));
}

#[test]
fn dashboard_outcome_messages() {
    assert_eq!(
        dashboard::weather_outcome_message(Ok(sample_weather())),
        dashboard::DashboardMessage::WeatherLoaded(sample_weather())
    );
    assert_eq!(
        dashboard::weather_outcome_message(Err(ApiError::Timeout)),
        dashboard::DashboardMessage::RefreshWeather
    );
}

#[test]
fn pantry_load_and_filter_text() {
    let mut state = pantry::State::default();
    let cmd = pantry::update(&mut state, pantry::PantryMessage::LoadItems);
    assert_eq!(cmd, pantry::Command::FetchItems);
    assert!(state.loading);
    let items = vec![item("Milk", "Dairy"), item("Rye Bread", "Bakery")];
    let cmd = pantry::update(&mut state, pantry::PantryMessage::ItemsLoaded(items));
    assert_eq!(cmd, pantry::Command::NoOp);
    assert!(!state.loading);
    assert_eq!(state.items.len(), 2);
    let cmd = pantry::update(&mut state, pantry::PantryMessage::FilterChanged("br".to_string()));
    assert_eq!(cmd, pantry::Command::NoOp);
    assert_eq!(state.filter_text, "br");
    // Add and remove are not wired up yet and leave the state alone.
    let cmd = pantry::update(&mut state, pantry::PantryMessage::AddItem(item("Jam", "Pantry")));
    assert_eq!(cmd, pantry::Command::NoOp);
    assert_eq!(state.items.len(), 2);
    let cmd = pantry::update(&mut state, pantry::PantryMessage::RemoveItem("Milk".to_string()));
    assert_eq!(cmd, pantry::Command::NoOp);
    assert_eq!(state.items.len(), 2);
}

#[test]
fn pantry_filter_is_case_insensitive() {
    let items = vec![item("Milk", "Dairy"), item("Rye Bread", "Bakery"), item("Eggs", "Dairy")];
    let kept = pantry::filter_items(&items, "MILK");
    assert_eq!(kept.len(), 1);
    assert_eq!(kept[0].name, "Milk");
    let kept = pantry::filter_items(&items, "dairy");
    assert_eq!(kept.len(), 2);
    assert_eq!(kept[0].name, "Milk");
    assert_eq!(kept[1].name, "Eggs");
    let kept = pantry::filter_items(&items, "zz");
    assert_eq!(kept.len(), 0);
    let kept = pantry::filter_items(&items, "");
    assert_eq!(kept.len(), 3);
}

#[test]
fn pantry_outcome_messages() {
    let items = vec![item("Milk", "Dairy")];
    assert_eq!(
        pantry::items_outcome_message(Ok(items.clone())),
        pantry::PantryMessage::ItemsLoaded(items)
    );
    assert_eq!(
        pantry::items_outcome_message(Err(ApiError::Timeout)),
        pantry::PantryMessage::ItemsLoaded(vec![])
    );
}

fn sample_ocr() -> OCRResult {
    OCRResult {
        items: vec![OCRItem {
            name: "Apples".to_string(),
            quantity: 150,
            price: 399,
            category: Some("Fruit".to_string()),
        }],
        total: 399,
        store_name: Some("Corner Shop".to_string()),
        date: Some("2026-01-02".to_string()),
    }
}

#[test]
fn ocr_flow_from_selection_to_result() {
    let mut state = ocr::State::default();
    let cmd = ocr::update(&mut state, ocr::OCRMessage::ImageSelected("/tmp/r.jpg".to_string()));
    assert_eq!(cmd, ocr::Command::ReadImage { path: "/tmp/r.jpg".to_string() });
    assert_eq!(state.image_path, Some("/tmp/r.jpg".to_string()));
    let cmd = ocr::update(&mut state, ocr::OCRMessage::ProcessImage(vec![1, 2, 3]));
    assert_eq!(cmd, ocr::Command::Upload { image: vec![1, 2, 3] });
    assert!(state.loading);
    assert_eq!(state.error, None);
    let cmd = ocr::update(&mut state, ocr::OCRMessage::ResultReceived(sample_ocr()));
    assert_eq!(cmd, ocr::Command::NoOp);
    assert!(!state.loading);
    assert_eq!(state.result, Some(sample_ocr()));
}

#[test]
fn ocr_unimplemented_sources_report_errors() {
    let mut state = ocr::State::default();
    ocr::update(&mut state, ocr::OCRMessage::OpenCamera);
    assert_eq!(state.error, Some("Camera functionality not implemented yet.".to_string()));
    ocr::update(&mut state, ocr::OCRMessage::SelectImage);
    assert_eq!(state.error, Some("File picker not implemented yet.".to_string()));
    ocr::update(&mut state, ocr::OCRMessage::Error("backend down".to_string()));
    assert_eq!(state.error, Some("backend down".to_string()));
    assert!(!state.loading);
}

#[test]
fn ocr_outcome_messages() {
    assert_eq!(
        ocr::upload_outcome_message(Ok(sample_ocr())),
        ocr::OCRMessage::ResultReceived(sample_ocr())
    );
    assert_eq!(
        ocr::upload_outcome_message(Err(ApiError::Timeout)),
        ocr::OCRMessage::Error("Request timeout".to_string())
    );
}

#[test]
fn settings_edits_work_on_a_scratch_copy() {
    let mut state = settings::State::default();
    let mut live = AppSettings::default();
    let cmd = settings::update(
        &mut state,
        settings::SettingsMessage::EditBackendUrl("http://backend:9000".to_string()),
        &mut live,
    );
    assert!(matches!(cmd, settings::Command::NoOp));
    assert_eq!(live, AppSettings::default());
    let edited = state.edited_settings.clone().unwrap();
    assert_eq!(edited.backend_url, "http://backend:9000");
    assert_eq!(edited.theme_mode, ThemeMode::System);

    settings::update(
        &mut state,
        settings::SettingsMessage::ToggleThemeMode(ThemeMode::Dark),
        &mut live,
    );
    settings::update(&mut state, settings::SettingsMessage::ToggleNotifications(false), &mut live);
    settings::update(&mut state, settings::SettingsMessage::ToggleAutoSync(false), &mut live);
    settings::update(
        &mut state,
        settings::SettingsMessage::EditOcrUploadDir("/data/ocr".to_string()),
        &mut live,
    );
    assert_eq!(live, AppSettings::default());

    let cmd = settings::update(&mut state, settings::SettingsMessage::SaveSettings, &mut live);
    assert_eq!(live.backend_url, "http://backend:9000");
    assert_eq!(live.theme_mode, ThemeMode::Dark);
    assert!(!live.notifications_enabled);
    assert!(!live.auto_sync);
    assert_eq!(live.ocr_upload_dir, "/data/ocr");
    match cmd {
        settings::Command::Persist(s) => assert_eq!(s, live),
        other => panic!("unexpected command: {:?}", other),
    }
}

#[test]
fn settings_reset_returns_to_defaults() {
    let mut state = settings::State::default();
    let mut live = AppSettings::default();
    settings::update(
        &mut state,
        settings::SettingsMessage::EditBackendUrl("http://backend:9000".to_string()),
        &mut live,
    );
    let cmd = settings::update(&mut state, settings::SettingsMessage::ResetSettings, &mut live);
    assert!(matches!(cmd, settings::Command::NoOp));
    assert_eq!(state.edited_settings, Some(AppSettings::default()));
}

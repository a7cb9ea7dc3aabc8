use myappassistant::sandbox::{simulate_response, update, Message, State};
use myappassistant::text::str_contains;

#[test]
fn the_demo_starts_with_a_greeting() {
    let s = State::default();
    assert_eq!(s.input_value, "");
    assert_eq!(s.messages.len(), 1);
    assert_eq!(s.messages[0].0, "System");
    assert_eq!(s.messages[0].1, "Witaj w MyAppAssistant! Jak mogę Ci pomóc?");
}

#[test]
fn weather_questions_go_to_the_weather_agent() {
    // The keyword matches case-insensitively.
    let (agent, reply) = simulate_response("Jaka jest POGODA?");
    assert_eq!(agent, "WeatherAgent");
    assert_eq!(reply, "Obecnie jest słonecznie i 25°C na zewnątrz.");
}

#[test]
fn food_questions_go_to_the_chef_agent() {
    let (agent, _) = simulate_response("Masz jakiś przepis?");
    assert_eq!(agent, "ChefAgent");
    let (agent, reply) = simulate_response("JEDZENIE");
    assert_eq!(agent, "ChefAgent");
    assert_eq!(reply, "Znalazłem świetny przepis na makaron dla Ciebie!");
}

#[test]
fn everything_else_goes_to_the_general_agent() {
    let (agent, reply) = simulate_response("hello");
    assert_eq!(agent, "GeneralAgent");
    assert_eq!(reply, "Otrzymałem Twoją wiadomość: hello");
}

#[test]
fn sending_adds_both_sides_and_clears_the_input() {
    let mut s = State::default();
    update(&mut s, Message::InputChanged("pogoda jutro".to_string()));
    assert_eq!(s.input_value, "pogoda jutro");
    update(&mut s, Message::SendMessage);
    assert_eq!(s.messages.len(), 3);
    assert_eq!(s.messages[1], ("Ty".to_string(), "pogoda jutro".to_string()));
    assert_eq!(s.messages[2].0, "WeatherAgent");
    assert_eq!(s.input_value, "");
}

#[test]
fn sending_an_empty_input_does_nothing() {
    let mut s = State::default();
    update(&mut s, Message::SendMessage);
    assert_eq!(s.messages.len(), 1);
    assert_eq!(s.input_value, "");
}

#[test]
fn substring_search_finds_inner_matches() {
    assert!(str_contains("household assistant", "hold"));
    assert!(str_contains("abc", ""));
    assert!(!str_contains("abc", "abcd"));
    assert!(!str_contains("abc", "ac"));
    assert!(str_contains("zażółć", "żółć"));
}

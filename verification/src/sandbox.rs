//! A self-contained demo chat that answers without a backend: replies are
//! routed to a canned agent by keywords in the prompt.
use vstd::prelude::*;
use vstd::string::StringExecFns;

use crate::text::{contains_seq, lower_of, str_contains, to_lowercase};

verus! {

/// The demo conversation: the typed input and the `(agent, message)` pairs
/// exchanged so far.
#[derive(Debug)]
pub struct State {
    /// Chat input text.
    pub input_value: String,
    /// The conversation, one `(agent, message)` pair per entry.
    pub messages: Vec<(String, String)>,
}

impl State {
    /// The state the demo starts in: a greeting from the system, no input.
    pub open spec fn is_initial(self) -> bool {
        &&& self.input_value@ == Seq::<char>::empty()
        &&& self.messages@.len() == 1
        &&& self.messages@[0].0@ == "System"@
        &&& self.messages@[0].1@ == "Witaj w MyAppAssistant! Jak mogę Ci pomóc?"@
    }
}

impl Default for State {
    fn default() -> (r: Self)
        ensures
            r.is_initial(),
    {
        let mut messages: Vec<(String, String)> = Vec::new();
        messages.push(("System".to_owned(), "Witaj w MyAppAssistant! Jak mogę Ci pomóc?".to_owned()));
        State { input_value: String::new(), messages }
    }
}

/// Demo messages.
#[derive(Debug, PartialEq, Eq)]
pub enum Message {
    /// Input text changed.
    InputChanged(String),
    /// Send message.
    SendMessage,
}

/// Which agent answers a prompt: the weather agent on `pogoda`, the chef
/// agent on `przepis` or `jedzenie`, the general agent otherwise; matching
/// is case-insensitive.
pub open spec fn agent_for(input: Seq<char>) -> Seq<char> {
    if contains_seq(lower_of(input), "pogoda"@) {
        "WeatherAgent"@
    } else if contains_seq(lower_of(input), "przepis"@) || contains_seq(
        lower_of(input),
        "jedzenie"@,
    ) {
        "ChefAgent"@
    } else {
        "GeneralAgent"@
    }
}

/// What the chosen agent answers.
pub open spec fn reply_for(input: Seq<char>) -> Seq<char> {
    if contains_seq(lower_of(input), "pogoda"@) {
        "Obecnie jest słonecznie i 25°C na zewnątrz."@
    } else if contains_seq(lower_of(input), "przepis"@) || contains_seq(
        lower_of(input),
        "jedzenie"@,
    ) {
        "Znalazłem świetny przepis na makaron dla Ciebie!"@
    } else {
        "Otrzymałem Twoją wiadomość: "@ + input
    }
}

/// The canned `(agent, message)` reply to one prompt.
pub fn simulate_response(input: &str) -> (r: (String, String))
    ensures
        r.0@ == agent_for(input@),
        r.1@ == reply_for(input@),
{
    let lowered = to_lowercase(input);
    if str_contains(lowered.as_str(), "pogoda") {
        ("WeatherAgent".to_owned(), "Obecnie jest słonecznie i 25°C na zewnątrz.".to_owned())
    } else if str_contains(lowered.as_str(), "przepis") || str_contains(
        lowered.as_str(),
        "jedzenie",
    ) {
        ("ChefAgent".to_owned(), "Znalazłem świetny przepis na makaron dla Ciebie!".to_owned())
    } else {
        let mut reply = "Otrzymałem Twoją wiadomość: ".to_owned();
        reply.append(input);
        ("GeneralAgent".to_owned(), reply)
    }
}

/// How one message takes the demo from `pre` to `post`.
pub open spec fn update_rel(pre: State, msg: Message, post: State) -> bool {
    match msg {
        Message::InputChanged(value) => {
            &&& post.input_value == value
            &&& post.messages == pre.messages
        },
        Message::SendMessage => {
            if pre.input_value@.len() == 0 {
                post == pre
            } else {
                &&& post.messages@.len() == pre.messages@.len() + 2
                &&& post.messages@.subrange(0, pre.messages@.len() as int) == pre.messages@
                &&& post.messages@[pre.messages@.len() as int].0@ == "Ty"@
                &&& post.messages@[pre.messages@.len() as int].1 == pre.input_value
                &&& post.messages@.last().0@ == agent_for(pre.input_value@)
                &&& post.messages@.last().1@ == reply_for(pre.input_value@)
                &&& post.input_value@ == Seq::<char>::empty()
            }
        },
    }
}

/// Update the demo: typing edits the input; sending a non-empty input adds
/// the user's entry and the canned reply, and clears the input.
pub fn update(state: &mut State, message: Message)
    ensures
        update_rel(*old(state), message, *final (state)),
{
    match message {
        Message::InputChanged(value) => {
            state.input_value = value;
        },
        Message::SendMessage => {
            if !state.input_value.as_str().is_empty() {
                let input = state.input_value.clone();
                state.messages.push(("Ty".to_owned(), input.clone()));
                let response = simulate_response(input.as_str());
                state.messages.push(response);
                state.input_value = String::new();
                proof {
                    assert(state.messages@.subrange(0, old(state).messages@.len() as int)
                        =~= old(state).messages@);
                }
            }
        },
    }
}

} // verus!

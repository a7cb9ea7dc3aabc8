//! The chat page: the running conversation with the assistant, and the
//! context window that is sent along with each new prompt.
use vstd::prelude::*;
use vstd::string::StringExecFns;

use crate::errors::{api_error_text, ApiError};
use crate::models::ChatMessage as ApiChatMessage;
use crate::models::ChatResponse;
use crate::text::{check_blank, is_blank};

verus! {

/// Chat state.
#[derive(Debug)]
pub struct State {
    /// Chat input text.
    pub input_text: String,
    /// Chat messages.
    pub messages: Vec<ApiChatMessage>,
    /// Loading state.
    pub loading: bool,
}

impl State {
    /// The state the page starts in: no input, no messages, nothing
    /// pending.
    pub open spec fn is_initial(self) -> bool {
        &&& self.input_text@ == Seq::<char>::empty()
        &&& self.messages@ == Seq::<ApiChatMessage>::empty()
        &&& !self.loading
    }
}

impl Default for State {
    fn default() -> (r: Self)
        ensures
            r.is_initial(),
    {
        State { input_text: String::new(), messages: Vec::new(), loading: false }
    }
}

/// Chat messages.
#[derive(Debug, PartialEq, Eq)]
pub enum ChatMessage {
    /// Input text changed.
    InputChanged(String),
    /// Send message.
    SendMessage,
    /// Message response received.
    MessageReceived(ChatResponse),
    /// Focus input.
    FocusInput,
    /// Clear chat.
    ClearChat,
}

/// What the binary is asked to perform after an update.
#[derive(Debug, PartialEq, Eq)]
pub enum Command {
    /// Nothing.
    NoOp,
    /// Send the prompt, with the rendered context of the recent
    /// conversation, to the backend.
    Send { prompt: String, context: Option<String> },
}

/// One conversation entry rendered as a context line, under the speaker's
/// label.
pub open spec fn rendered_line(m: ApiChatMessage) -> Seq<char> {
    if m.is_user {
        "User: "@ + m.content@
    } else {
        "Assistant: "@ + m.content@
    }
}

/// A run of conversation entries rendered as lines joined by newlines.
pub open spec fn context_text(msgs: Seq<ApiChatMessage>) -> Seq<char>
    decreases msgs.len(),
{
    if msgs.len() == 0 {
        Seq::empty()
    } else if msgs.len() == 1 {
        rendered_line(msgs[0])
    } else {
        rendered_line(msgs[0]) + "\n"@ + context_text(msgs.drop_first())
    }
}

/// The conversation entries that travel with a prompt: the last five, or
/// all of them where there are fewer.
pub open spec fn context_window(msgs: Seq<ApiChatMessage>) -> Seq<ApiChatMessage> {
    if msgs.len() > 5 {
        msgs.subrange(msgs.len() - 5, msgs.len() as int)
    } else {
        msgs
    }
}

/// The conversation entry one sent prompt adds.
pub open spec fn sent_user_message(input: String, now: i64) -> ApiChatMessage {
    ApiChatMessage { content: input, is_user: true, timestamp: now, agent: None }
}

/// How one message takes the page from `pre` to `post`, asking for `cmd`;
/// `now` stamps any conversation entry the message adds.
pub open spec fn update_rel(
    pre: State,
    msg: ChatMessage,
    now: i64,
    post: State,
    cmd: Command,
) -> bool {
    match msg {
        ChatMessage::InputChanged(text) => {
            &&& post.input_text == text
            &&& post.messages == pre.messages
            &&& post.loading == pre.loading
            &&& cmd is NoOp
        },
        ChatMessage::SendMessage => {
            if is_blank(pre.input_text@) || pre.loading {
                &&& post == pre
                &&& cmd is NoOp
            } else {
                let all = pre.messages@.push(sent_user_message(pre.input_text, now));
                &&& post.messages@ == all
                &&& post.input_text@ == Seq::<char>::empty()
                &&& post.loading
                &&& cmd matches Command::Send { prompt, context } && prompt == pre.input_text && (
                if all.len() > 1 {
                    context matches Some(c) && c@ == context_text(context_window(all))
                } else {
                    context is None
                })
            }
        },
        ChatMessage::MessageReceived(response) => {
            &&& post.messages@ == pre.messages@.push(
                ApiChatMessage {
                    content: response.response,
                    is_user: false,
                    timestamp: now,
                    agent: Some(response.model),
                },
            )
            &&& post.input_text == pre.input_text
            &&& !post.loading
            &&& cmd is NoOp
        },
        ChatMessage::FocusInput => {
            &&& post == pre
            &&& cmd is NoOp
        },
        ChatMessage::ClearChat => {
            &&& post.messages@ == Seq::<ApiChatMessage>::empty()
            &&& post.input_text == pre.input_text
            &&& post.loading == pre.loading
            &&& cmd is NoOp
        },
    }
}

/// Render one conversation entry as its context line.
fn rendered_line_exec(m: &ApiChatMessage) -> (r: String)
    ensures
        r@ == rendered_line(*m),
{
    let mut line = if m.is_user {
        "User: ".to_owned()
    } else {
        "Assistant: ".to_owned()
    };
    line.append(m.content.as_str());
    line
}

/// Appending one entry to a rendered run appends one line, with a newline
/// between where the run was not empty.
proof fn lemma_context_snoc(msgs: Seq<ApiChatMessage>, m: ApiChatMessage)
    ensures
        context_text(msgs.push(m)) == if msgs.len() == 0 {
            rendered_line(m)
        } else {
            context_text(msgs) + "\n"@ + rendered_line(m)
        },
    decreases msgs.len(),
{
    let p = msgs.push(m);
    if msgs.len() == 0 {
        assert(p[0] == m);
    } else if msgs.len() == 1 {
        assert(p[0] == msgs[0]);
        assert(p.drop_first() =~= seq![m]);
        assert(seq![m][0] == m);
        assert(context_text(p.drop_first()) == rendered_line(m));
        assert(context_text(p) =~= context_text(msgs) + "\n"@ + rendered_line(m));
    } else {
        lemma_context_snoc(msgs.drop_first(), m);
        assert(p.drop_first() =~= msgs.drop_first().push(m));
        assert(p[0] == msgs[0]);
        assert(context_text(p) =~= context_text(msgs) + "\n"@ + rendered_line(m));
    }
}

/// Update chat state.
pub fn update(state: &mut State, message: ChatMessage, now: i64) -> (cmd: Command)
    ensures
        update_rel(*old(state), message, now, *final (state), cmd),
{
    match message {
        ChatMessage::InputChanged(text) => {
            state.input_text = text;
            Command::NoOp
        },
        ChatMessage::SendMessage => {
            if check_blank(state.input_text.as_str()) || state.loading {
                return Command::NoOp;
            }
            // Add the user's message to the chat and clear the input.
            let message_text = state.input_text.clone();
            state.input_text = String::new();
            let user_message = ApiChatMessage {
                content: message_text.clone(),
                is_user: true,
                timestamp: now,
                agent: None,
            };
            state.messages.push(user_message);
            state.loading = true;
            let ghost all = state.messages@;
            proof {
                assert(all == old(state).messages@.push(
                    sent_user_message(old(state).input_text, now),
                ));
            }
            // Render the context from the most recent messages.
            let len = state.messages.len();
            let context: Option<String> = if len > 1 {
                let start = if len > 5 {
                    len - 5
                } else {
                    0
                };
                let mut ctx = String::new();
                let mut i = start;
                while i < len
                    invariant
                        start <= i <= len,
                        len == all.len(),
                        state.messages@ == all,
                        start == if all.len() > 5 {
                            all.len() - 5
                        } else {
                            0
                        },
                        ctx@ == context_text(all.subrange(start as int, i as int)),
                    decreases len - i,
                {
                    if i > start {
                        ctx.append("\n");
                    }
                    let line = rendered_line_exec(&state.messages[i]);
                    ctx.append(line.as_str());
                    proof {
                        lemma_context_snoc(all.subrange(start as int, i as int), all[i as int]);
                        assert(all.subrange(start as int, i as int).push(all[i as int])
                            =~= all.subrange(start as int, i + 1));
                        assert(ctx@ =~= context_text(all.subrange(start as int, i + 1)));
                    }
                    i = i + 1;
                }
                proof {
                    assert(all.subrange(start as int, len as int) =~= context_window(all));
                }
                Some(ctx)
            } else {
                None
            };
            Command::Send { prompt: message_text, context }
        },
        ChatMessage::MessageReceived(response) => {
            let assistant_message = ApiChatMessage {
                content: response.response,
                is_user: false,
                timestamp: now,
                agent: Some(response.model),
            };
            state.messages.push(assistant_message);
            state.loading = false;
            Command::NoOp
        },
        ChatMessage::FocusInput => Command::NoOp,
        ChatMessage::ClearChat => {
            state.messages.clear();
            Command::NoOp
        },
    }
}

/// The message a finished send feeds back: the backend's text as the
/// assistant's reply, or the error rendered as a reply from an error agent.
pub fn response_message(result: Result<String, ApiError>) -> (m: ChatMessage)
    ensures
        match result {
            Ok(text) => m matches ChatMessage::MessageReceived(r) && r.response == text
                && r.model@ == "assistant"@,
            Err(e) => m matches ChatMessage::MessageReceived(r) && r.response@ == "Error: "@
                + api_error_text(e) && r.model@ == "error"@,
        },
{
    match result {
        Ok(text) => ChatMessage::MessageReceived(
            ChatResponse { response: text, model: "assistant".to_owned() },
        ),
        Err(e) => {
            let mut response = "Error: ".to_owned();
            let em = e.message();
            response.append(em.as_str());
            ChatMessage::MessageReceived(ChatResponse { response, model: "error".to_owned() })
        },
    }
}

} // verus!

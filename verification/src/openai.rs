//! What is sent to the language model, and what is made of its answer.

use vstd::prelude::*;
use crate::conversation::{turn_views, Role, Turn, TurnView};
use crate::text::{joined, text_views};

verus! {

/// The instructions given to the model where none are configured.
pub const DEFAULT_PROMPT: &'static str =
    "Your are a helpful bot call 'washit'. You always give advice and opinion in best effort. Reply in full Cantonese for casual question; Full English if it is a serious question. Reply in japanese if the user is using japanese";

/// The model that is asked where none is configured.
pub const DEFAULT_MODEL: &'static str = "gpt-3.5-turbo";

/// One message of a request to the model.
#[derive(Debug)]
pub struct ChatMessage {
    pub role: String,
    pub content: String,
}

/// A message of a request as a mathematical value.
pub struct ChatMessageView {
    pub role: Seq<char>,
    pub content: Seq<char>,
}

impl View for ChatMessage {
    type V = ChatMessageView;

    open spec fn view(&self) -> ChatMessageView {
        ChatMessageView { role: self.role@, content: self.content@ }
    }
}

/// A request to the model.
#[derive(Debug)]
pub struct ChatRequest {
    pub model: String,
    pub messages: Vec<ChatMessage>,
}

/// A request as a mathematical value.
pub struct ChatRequestView {
    pub model: Seq<char>,
    pub messages: Seq<ChatMessageView>,
}

/// The views of a list of messages, in order.
pub open spec fn message_views(messages: Seq<ChatMessage>) -> Seq<ChatMessageView> {
    messages.map_values(|m: ChatMessage| m@)
}

impl View for ChatRequest {
    type V = ChatRequestView;

    open spec fn view(&self) -> ChatRequestView {
        ChatRequestView { model: self.model@, messages: message_views(self.messages@) }
    }
}

/// The name by which the model knows a role.
pub open spec fn role_name(role: Role) -> Seq<char> {
    match role {
        Role::User => "user"@,
        Role::Assistant => "assistant"@,
    }
}

/// A turn as a message of a request.
pub open spec fn turn_message(turn: TurnView) -> ChatMessageView {
    ChatMessageView { role: role_name(turn.role), content: turn.content }
}

/// The turns of a conversation as messages of a request, in order.
pub open spec fn history_messages(turns: Seq<TurnView>) -> Seq<ChatMessageView> {
    turns.map_values(|turn: TurnView| turn_message(turn))
}

/// The request for a conversation: the instructions first, then the turns
/// so far in their order, then what the user has just said.
pub open spec fn request_for(
    system_prompt: Seq<char>,
    model: Seq<char>,
    user_prompt: Seq<char>,
    history: Seq<ChatMessageView>,
) -> ChatRequestView {
    ChatRequestView {
        model,
        messages: seq![ChatMessageView { role: "system"@, content: system_prompt }] + history
            + seq![ChatMessageView { role: "user"@, content: user_prompt }],
    }
}

/// The instructions given to the model: those configured, or the default.
pub fn get_default_prompt(configured: Option<String>) -> (r: String)
    ensures
        r@ == match configured {
            Some(prompt) => prompt@,
            None => DEFAULT_PROMPT@,
        },
{
    match configured {
        Some(prompt) => prompt,
        None => String::from_str(DEFAULT_PROMPT),
    }
}

/// The model that is asked: the one configured, or the default.
pub fn get_model_id(configured: Option<String>) -> (r: String)
    ensures
        r@ == match configured {
            Some(model) => model@,
            None => DEFAULT_MODEL@,
        },
{
    match configured {
        Some(model) => model,
        None => String::from_str(DEFAULT_MODEL),
    }
}

/// The turns of a conversation as messages of a request, in order.
pub fn build_history_messages(history: Vec<Turn>) -> (r: Vec<ChatMessage>)
    ensures
        message_views(r@) == history_messages(turn_views(history@)),
{
    let mut messages: Vec<ChatMessage> = Vec::new();
    let mut i: usize = 0;
    while i < history.len()
        invariant
            i <= history.len(),
            messages.len() == i,
            forall|j: int| 0 <= j < i ==> (#[trigger] messages[j])@ == turn_message(history[j]@),
        decreases history.len() - i,
    {
        let role = match history[i].role {
            Role::User => String::from_str("user"),
            Role::Assistant => String::from_str("assistant"),
        };
        messages.push(ChatMessage { role, content: history[i].content.clone() });
        i += 1;
    }
    assert(message_views(messages@) =~= history_messages(turn_views(history@)));
    messages
}

/// The request for a conversation.
pub fn build_request(
    system_prompt: String,
    model: String,
    user_prompt: String,
    history_messages: Vec<ChatMessage>,
) -> (r: ChatRequest)
    ensures
        r@ == request_for(system_prompt@, model@, user_prompt@, message_views(history_messages@)),
{
    let ghost history = message_views(history_messages@);
    let mut history_messages = history_messages;
    let mut messages: Vec<ChatMessage> = Vec::new();
    messages.push(ChatMessage { role: String::from_str("system"), content: system_prompt });
    messages.append(&mut history_messages);
    messages.push(ChatMessage { role: String::from_str("user"), content: user_prompt });
    assert(message_views(messages@) =~= request_for(
        system_prompt@,
        model@,
        user_prompt@,
        history,
    ).messages);
    ChatRequest { model, messages }
}

/// What is reported where the request to the model could not be sent, with
/// the transport's own word of what went wrong.
pub fn sending_failed(detail: &str) -> (r: String)
    ensures
        r@ == "Error getting response from OpenAI: "@ + detail@,
{
    joined("Error getting response from OpenAI: ", detail)
}

/// What is reported where the model's reply could not be read off the
/// wire, with the transport's own word of what went wrong.
pub fn reading_failed(detail: &str) -> (r: String)
    ensures
        r@ == "Error when reading response from OpenAI: "@ + detail@,
{
    joined("Error when reading response from OpenAI: ", detail)
}

/// What is reported where the reply to a request for pictures could not be
/// understood, with the reader's own word of what went wrong.
pub fn pictures_unreadable(detail: &str) -> (r: String)
    ensures
        r@ == "Error parsing response from OpenAI: "@ + detail@,
{
    joined("Error parsing response from OpenAI: ", detail)
}

/// What the model's reply amounts to, given the error that the reply
/// reports, if it reports one, and otherwise the texts of its choices or
/// the reason for which they could not be read. A reported error is the
/// failure; so is a reply that cannot be read, and one without a choice.
/// Otherwise the first choice is the answer.
pub open spec fn response_outcome(
    reported: Option<Seq<char>>,
    parsed: Result<Seq<Seq<char>>, Seq<char>>,
) -> Result<Seq<char>, Seq<char>> {
    match reported {
        Some(message) => Err(message),
        None => match parsed {
            Err(reason) => Err("Error when parsing response from OpenAI: "@ + reason),
            Ok(choices) => if choices.len() == 0 {
                Err("Error when parsing response from OpenAI: no choices"@)
            } else {
                Ok(choices[0])
            },
        },
    }
}

/// An outcome with its texts as mathematical values.
pub open spec fn outcome_view(outcome: Result<String, String>) -> Result<Seq<char>, Seq<char>> {
    match outcome {
        Ok(text) => Ok(text@),
        Err(reason) => Err(reason@),
    }
}

/// What the model's reply amounts to.
pub fn get_response(
    reported: Option<String>,
    parsed: Result<Vec<String>, String>,
) -> (r: Result<String, String>)
    ensures
        outcome_view(r) == response_outcome(
            match reported {
                Some(message) => Some(message@),
                None => None,
            },
            match parsed {
                Ok(choices) => Ok(text_views(choices@)),
                Err(reason) => Err(reason@),
            },
        ),
{
    match reported {
        Some(message) => Err(message),
        None => match parsed {
            Err(reason) => Err(joined("Error when parsing response from OpenAI: ", reason.as_str())),
            Ok(choices) => if choices.len() == 0 {
                Err(String::from_str("Error when parsing response from OpenAI: no choices"))
            } else {
                Ok(choices[0].clone())
            },
        },
    }
}

/// What the user is shown: the model's answer, or word of the failure.
pub fn ask_chat_gpt(outcome: Result<String, String>) -> (r: String)
    ensures
        r@ == match outcome {
            Ok(text) => text@,
            Err(reason) => "OpenAI: "@ + reason@,
        },
{
    match outcome {
        Ok(text) => text,
        Err(reason) => joined("OpenAI: ", reason.as_str()),
    }
}

/// The addresses among `found`, in order: the pictures that have one.
pub open spec fn addresses_among(found: Seq<Option<String>>) -> Seq<Seq<char>>
    decreases found.len(),
{
    if found.len() == 0 {
        Seq::empty()
    } else {
        match found.last() {
            Some(url) => addresses_among(found.drop_last()).push(url@),
            None => addresses_among(found.drop_last()),
        }
    }
}

/// The addresses of the pictures that the model made, in order, leaving out
/// the pictures that came without one.
pub fn generate_images(found: Vec<Option<String>>) -> (r: Vec<String>)
    ensures
        text_views(r@) == addresses_among(found@),
{
    let mut urls: Vec<String> = Vec::new();
    let mut i: usize = 0;
    assert(found@.take(0) =~= Seq::<Option<String>>::empty());
    assert(text_views(urls@) =~= Seq::<Seq<char>>::empty());
    while i < found.len()
        invariant
            i <= found.len(),
            text_views(urls@) == addresses_among(found@.take(i as int)),
        decreases found.len() - i,
    {
        let ghost before = text_views(urls@);
        proof {
            assert(found@.take(i as int + 1).drop_last() =~= found@.take(i as int));
            assert(found@.take(i as int + 1).last() == found@[i as int]);
        }
        match &found[i] {
            Some(url) => {
                urls.push(url.clone());
                assert(text_views(urls@) =~= before.push(url@));
            },
            None => {},
        }
        i += 1;
    }
    assert(found@.take(found.len() as int) =~= found@);
    urls
}

} // verus!

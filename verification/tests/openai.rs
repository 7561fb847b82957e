use chat_relay::conversation::{Role, Turn};
use chat_relay::openai::{
    ask_chat_gpt, build_history_messages, build_request, generate_images, get_default_prompt,
    get_model_id, get_response, pictures_unreadable, reading_failed, sending_failed, ChatMessage,
    DEFAULT_MODEL, DEFAULT_PROMPT,
};

fn pairs(messages: &[ChatMessage]) -> Vec<(String, String)> {
    messages.iter().map(|m| (m.role.clone(), m.content.clone())).collect()
}

fn pair(role: &str, content: &str) -> (String, String) {
    (role.to_string(), content.to_string())
}

#[test]
fn defaults_apply_where_nothing_is_configured() {
    assert_eq!(get_default_prompt(None), DEFAULT_PROMPT);
    assert_eq!(get_default_prompt(Some("be brief".to_string())), "be brief");
    assert_eq!(get_model_id(None), "gpt-3.5-turbo");
    assert_eq!(get_model_id(None), DEFAULT_MODEL);
    assert_eq!(get_model_id(Some("gpt-4".to_string())), "gpt-4");
}

#[test]
fn history_keeps_order_and_names_roles() {
    let history = vec![
        Turn { role: Role::User, content: "hello".to_string() },
        Turn { role: Role::Assistant, content: "hi".to_string() },
        Turn { role: Role::User, content: "bye".to_string() },
    ];
    let messages = build_history_messages(history);
    assert_eq!(
        pairs(&messages),
        vec![pair("user", "hello"), pair("assistant", "hi"), pair("user", "bye")]
    );
    assert!(build_history_messages(vec![]).is_empty());
}

#[test]
fn request_frames_history_between_system_and_user() {
    let history = vec![
        ChatMessage { role: "user".to_string(), content: "hello".to_string() },
        ChatMessage { role: "assistant".to_string(), content: "hi".to_string() },
    ];
    let request = build_request("sys".to_string(), "m1".to_string(), "now what".to_string(), history);
    assert_eq!(request.model, "m1");
    assert_eq!(
        pairs(&request.messages),
        vec![
            pair("system", "sys"),
            pair("user", "hello"),
            pair("assistant", "hi"),
            pair("user", "now what"),
        ]
    );
    let bare = build_request("sys".to_string(), "m1".to_string(), "q".to_string(), vec![]);
    assert_eq!(pairs(&bare.messages), vec![pair("system", "sys"), pair("user", "q")]);
}

#[test]
fn response_is_the_first_choice() {
    let choices = vec!["first".to_string(), "second".to_string()];
    assert_eq!(get_response(None, Ok(choices)), Ok("first".to_string()));
}

#[test]
fn reported_error_wins() {
    let choices = vec!["first".to_string()];
    assert_eq!(
        get_response(Some("bad key".to_string()), Ok(choices)),
        Err("bad key".to_string())
    );
    assert_eq!(
        get_response(Some("bad key".to_string()), Err("eof".to_string())),
        Err("bad key".to_string())
    );
}

#[test]
fn unreadable_response_is_an_error() {
    assert_eq!(
        get_response(None, Err("eof".to_string())),
        Err("Error when parsing response from OpenAI: eof".to_string())
    );
    assert_eq!(
        get_response(None, Ok(vec![])),
        Err("Error when parsing response from OpenAI: no choices".to_string())
    );
}

#[test]
fn user_sees_answer_or_failure() {
    assert_eq!(ask_chat_gpt(Ok("sure".to_string())), "sure");
    assert_eq!(ask_chat_gpt(Err("down".to_string())), "OpenAI: down");
}

#[test]
fn pictures_without_address_are_left_out() {
    let found = vec![None, Some("u1".to_string()), None, Some("u2".to_string())];
    assert_eq!(generate_images(found), vec!["u1", "u2"]);
    assert!(generate_images(vec![None]).is_empty());
    assert!(generate_images(vec![]).is_empty());
}

#[test]
fn failures_of_the_call_are_worded() {
    assert_eq!(sending_failed("timeout"), "Error getting response from OpenAI: timeout");
    assert_eq!(reading_failed("reset"), "Error when reading response from OpenAI: reset");
    assert_eq!(pictures_unreadable("eof"), "Error parsing response from OpenAI: eof");
}

use chat_relay::conversation::{Message, Role, Turn};
use chat_relay::keys::{pointer_key, ThreadKey};
use chat_relay::handlers::chat_handler;
use chat_relay::orchestrator::{advance, begin, post_text, settle, Action, Event, Move, Outcome, Stage};
use chat_relay::store::{Fault, MemoryStore, StoreReply, StoreRequest};
use chat_relay::threads::{read_history, Origin};

const BOT: u64 = 900;

struct Trace {
    asked: Vec<(Vec<(Role, String)>, String)>,
    origins: Vec<Origin>,
    replies: Vec<String>,
    errors: Vec<String>,
    store_calls: usize,
    outcome: Outcome,
}

fn pairs(turns: &[Turn]) -> Vec<(Role, String)> {
    turns.iter().map(|t| (t.role, t.content.clone())).collect()
}

fn run(
    store: &mut MemoryStore,
    message: &Message,
    model: Result<String, String>,
    posted: Option<u64>,
) -> Trace {
    let mut trace = Trace {
        asked: Vec::new(),
        origins: Vec::new(),
        replies: Vec::new(),
        errors: Vec::new(),
        store_calls: 0,
        outcome: Outcome::Ignored,
    };
    let mut next = begin(message, BOT);
    let mut calls = 0;
    loop {
        let (action, stage) = match next {
            Move::Finished(outcome) => {
                trace.outcome = outcome;
                return trace;
            }
            Move::Do { action, stage } => (action, stage),
        };
        calls += 1;
        assert!(calls <= 17);
        let event = match action {
            Action::Store(request) => {
                trace.store_calls += 1;
                Event::Store(store.serve(&request, 0))
            }
            Action::AskModel { history, text, origin } => {
                trace.asked.push((pairs(&history), text));
                trace.origins.push(origin);
                Event::Model(model.clone())
            }
            Action::PostReply { text } => {
                trace.replies.push(text);
                Event::Posted(posted)
            }
            Action::PostError { text } => {
                trace.errors.push(text);
                Event::Posted(posted)
            }
        };
        next = advance(message, BOT, stage, event);
    }
}

fn user_message(id: u64, content: &str, parent: Option<u64>) -> Message {
    Message { id, author: 7, content: content.to_string(), parent }
}

#[test]
fn bot_messages_are_left_alone() {
    let mut store = MemoryStore::new();
    let own = Message { id: 1, author: BOT, content: "hi".to_string(), parent: None };
    let trace = run(&mut store, &own, Ok("x".to_string()), Some(2));
    assert_eq!(trace.outcome, Outcome::Ignored);
    assert_eq!(trace.store_calls, 0);
    assert!(trace.asked.is_empty());
    assert!(trace.replies.is_empty());
}

#[test]
fn first_message_is_answered_and_both_turns_recorded() {
    let mut store = MemoryStore::new();
    let trace = run(&mut store, &user_message(1, "hello", None), Ok("hi there".to_string()), Some(2));
    assert_eq!(trace.outcome, Outcome::Answered { joined: Origin::Continued });
    assert_eq!(trace.asked, vec![(vec![], "hello".to_string())]);
    assert_eq!(trace.origins, vec![Origin::Fresh]);
    assert_eq!(trace.replies, vec!["hi there".to_string()]);
    assert!(trace.errors.is_empty());
    let history = read_history(&mut store, &ThreadKey::mint(1), 0).unwrap();
    assert_eq!(
        pairs(&history),
        vec![(Role::User, "hello".to_string()), (Role::Assistant, "hi there".to_string())]
    );
    assert_eq!(store.get(&pointer_key(1), 0), Ok(Some("root-1".to_string())));
    assert_eq!(store.get(&pointer_key(2), 0), Ok(Some("root-1".to_string())));
}

#[test]
fn reply_to_the_bot_continues_with_the_full_history() {
    let mut store = MemoryStore::new();
    run(&mut store, &user_message(1, "hello", None), Ok("hi there".to_string()), Some(2));
    let trace = run(
        &mut store,
        &user_message(3, "how are you", Some(2)),
        Ok("fine".to_string()),
        Some(4),
    );
    assert_eq!(trace.outcome, Outcome::Answered { joined: Origin::Continued });
    assert_eq!(
        trace.asked,
        vec![(
            vec![(Role::User, "hello".to_string()), (Role::Assistant, "hi there".to_string())],
            "how are you".to_string()
        )]
    );
    assert_eq!(trace.origins, vec![Origin::Continued]);
    let history = read_history(&mut store, &ThreadKey::mint(1), 0).unwrap();
    assert_eq!(
        pairs(&history),
        vec![
            (Role::User, "hello".to_string()),
            (Role::Assistant, "hi there".to_string()),
            (Role::User, "how are you".to_string()),
            (Role::Assistant, "fine".to_string()),
        ]
    );
    assert_eq!(store.get(&pointer_key(4), 0), Ok(Some("root-1".to_string())));
}

#[test]
fn model_failure_is_reported_and_adds_no_assistant_turn() {
    let mut store = MemoryStore::new();
    let trace = run(&mut store, &user_message(1, "hello", None), Err("quota".to_string()), Some(2));
    assert_eq!(trace.outcome, Outcome::Failed(Fault::RemoteCallFailed));
    assert!(trace.replies.is_empty());
    assert_eq!(trace.errors, vec!["OpenAI: quota".to_string()]);
    let history = read_history(&mut store, &ThreadKey::mint(1), 0).unwrap();
    assert_eq!(pairs(&history), vec![(Role::User, "hello".to_string())]);
    assert_eq!(store.get(&pointer_key(2), 0), Ok(None));
}

#[test]
fn failed_post_ends_the_work() {
    let mut store = MemoryStore::new();
    let trace = run(&mut store, &user_message(1, "hello", None), Ok("hi".to_string()), None);
    assert_eq!(trace.outcome, Outcome::Failed(Fault::RemoteCallFailed));
    assert_eq!(trace.replies, vec!["hi".to_string()]);
    let history = read_history(&mut store, &ThreadKey::mint(1), 0).unwrap();
    assert_eq!(pairs(&history), vec![(Role::User, "hello".to_string())]);
}

#[test]
fn store_out_of_reach_still_answers() {
    let mut store = MemoryStore::new();
    store.set_reachable(false);
    let trace = run(&mut store, &user_message(5, "hello", Some(4)), Ok("hi".to_string()), Some(6));
    let degraded = Origin::Degraded(Fault::StoreUnavailable);
    assert_eq!(trace.outcome, Outcome::Answered { joined: degraded });
    assert_eq!(trace.asked, vec![(vec![], "hello".to_string())]);
    assert_eq!(trace.origins, vec![degraded]);
    assert_eq!(trace.replies, vec!["hi".to_string()]);
    store.set_reachable(true);
    assert_eq!(store.get(&pointer_key(5), 0), Ok(None));
}

#[test]
fn at_most_one_post_per_message() {
    for model in [Ok("a".to_string()), Err("b".to_string())] {
        for posted in [Some(9), None] {
            let mut store = MemoryStore::new();
            let trace = run(&mut store, &user_message(1, "x", Some(3)), model.clone(), posted);
            assert_eq!(trace.replies.len() + trace.errors.len(), 1);
        }
    }
}

#[test]
fn event_that_does_not_fit_the_stage_ends_the_work() {
    let m = user_message(1, "x", None);
    let next = advance(&m, BOT, Stage::AskingModel, Event::Store(StoreReply::Done));
    assert!(matches!(next, Move::Finished(Outcome::Failed(Fault::MalformedInput))));
    let stage = Stage::RecordingUser { origin: Origin::Fresh };
    let next = advance(&m, BOT, stage, Event::Posted(Some(1)));
    assert!(matches!(next, Move::Finished(Outcome::Failed(Fault::MalformedInput))));
    let next = advance(&m, BOT, Stage::ReportingFailure, Event::Posted(None));
    assert!(matches!(next, Move::Finished(Outcome::Failed(Fault::RemoteCallFailed))));
}

#[test]
fn first_move_of_a_reply_looks_the_parent_up() {
    match begin(&user_message(8, "x", Some(7)), BOT) {
        Move::Do { action: Action::Store(StoreRequest::Get { key }), stage } => {
            assert_eq!(key, "pointer:7");
            assert!(matches!(stage, Stage::ResolvingUser(_)));
        }
        other => panic!("unexpected move {:?}", other),
    }
}

#[test]
fn chat_handler_ends_as_the_played_moves_do() {
    let cases: Vec<(Result<String, String>, Option<u64>)> = vec![
        (Ok("fine".to_string()), Some(21)),
        (Ok("fine".to_string()), None),
        (Err("down".to_string()), Some(21)),
    ];
    let mentions = vec![BOT];
    for (model, posted) in cases {
        let mut played = MemoryStore::new();
        let mut handled = MemoryStore::new();
        let first = user_message(1, "hello", None);
        run(&mut played, &first, Ok("hi".to_string()), Some(2));
        chat_handler(&mut handled, &first, &mentions, BOT, 0, &Ok("hi".to_string()), Some(2));
        let second = user_message(20, "and then?", Some(2));
        let trace = run(&mut played, &second, model.clone(), posted);
        let done = chat_handler(&mut handled, &second, &mentions, BOT, 0, &model, posted);
        assert_eq!(done.outcome, trace.outcome);
        let mut said = trace.replies.clone();
        said.extend(trace.errors.clone());
        assert_eq!(done.post.into_iter().collect::<Vec<String>>(), said);
        let key = ThreadKey::mint(1);
        assert_eq!(
            pairs(&read_history(&mut played, &key, 0).unwrap()),
            pairs(&read_history(&mut handled, &key, 0).unwrap())
        );
        assert_eq!(played.get(&pointer_key(21), 0), handled.get(&pointer_key(21), 0));
        assert_eq!(played.get(&pointer_key(20), 0), handled.get(&pointer_key(20), 0));
    }
}

#[test]
fn settle_records_the_turn_of_a_message_that_begins_a_conversation() {
    let mut store = MemoryStore::new();
    let first = settle(&mut store, &user_message(1, "hello", None), BOT, 0);
    assert_eq!(first.origin, Origin::Fresh);
    assert!(first.history.is_empty());
    let second = settle(&mut store, &user_message(2, "again", Some(1)), BOT, 0);
    assert_eq!(second.origin, Origin::Continued);
    assert_eq!(pairs(&second.history), vec![(Role::User, "hello".to_string())]);
    let history = read_history(&mut store, &ThreadKey::mint(1), 0).unwrap();
    assert_eq!(
        pairs(&history),
        vec![(Role::User, "hello".to_string()), (Role::User, "again".to_string())]
    );
}

#[test]
fn post_is_the_answer_or_word_of_the_failure() {
    assert_eq!(post_text(&Ok("sure".to_string())), "sure");
    assert_eq!(post_text(&Err("down".to_string())), "OpenAI: down");
}

#[test]
fn untracked_parent_is_told_from_a_fresh_conversation() {
    let mut store = MemoryStore::new();
    let trace = run(&mut store, &user_message(9, "hm", Some(8)), Ok("ok".to_string()), Some(10));
    assert_eq!(trace.origins, vec![Origin::ParentUntracked]);
    assert_eq!(trace.outcome, Outcome::Answered { joined: Origin::Continued });
}

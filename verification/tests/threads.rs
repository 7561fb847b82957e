use chat_relay::conversation::{Message, Role, Turn};
use chat_relay::keys::{pointer_key, thread_key, ThreadKey};
use chat_relay::store::{Fault, MemoryStore, StoreReply, StoreRequest};
use chat_relay::threads::{
    append_request, append_turn, begin_resolve, continue_resolve, history_from_reply,
    history_request, read_history, resolve, Origin, ResolvePhase, ResolveStep,
};

const BOT: u64 = 900;

fn message(id: u64, content: &str, parent: Option<u64>) -> Message {
    Message { id, author: 7, content: content.to_string(), parent }
}

fn user(content: &str) -> Turn {
    Turn { role: Role::User, content: content.to_string() }
}

fn contents(turns: &[Turn]) -> Vec<(Role, String)> {
    turns.iter().map(|t| (t.role, t.content.clone())).collect()
}

#[test]
fn root_message_gets_fresh_key_and_empty_history() {
    let mut store = MemoryStore::new();
    let resolution = resolve(&mut store, &message(42, "hello", None), BOT, 0);
    assert_eq!(resolution.key, ThreadKey::mint(42));
    assert_eq!(resolution.key.text(), "root-42");
    assert!(resolution.history.is_empty());
    assert_eq!(resolution.origin, Origin::Fresh);
    assert_eq!(store.get(&pointer_key(42), 0), Ok(Some("root-42".to_string())));
    assert_eq!(store.read_list(&thread_key(&resolution.key)), Ok(vec![]));
}

#[test]
fn reply_joins_the_conversation_of_its_parent() {
    let mut store = MemoryStore::new();
    let root = resolve(&mut store, &message(1, "hello", None), BOT, 0);
    append_turn(&mut store, &root.key, &user("hello"), 0).unwrap();
    let before = store.read_list(&thread_key(&root.key)).unwrap();

    let reply = resolve(&mut store, &message(2, "how are you", Some(1)), BOT, 1);
    assert_eq!(reply.key, root.key);
    assert_eq!(reply.origin, Origin::Continued);
    assert_eq!(contents(&reply.history), vec![(Role::User, "hello".to_string())]);
    assert_eq!(store.get(&pointer_key(2), 1), Ok(Some("root-1".to_string())));
    let after = store.read_list(&thread_key(&root.key)).unwrap();
    assert_eq!(after.len(), before.len() + 1);
    assert_eq!(after, vec!["user:hello".to_string(), "user:how are you".to_string()]);
}

#[test]
fn reply_to_untracked_parent_begins_a_conversation() {
    let mut store = MemoryStore::new();
    let resolution = resolve(&mut store, &message(5, "anyone?", Some(4)), BOT, 0);
    assert_eq!(resolution.key, ThreadKey::mint(5));
    assert!(resolution.history.is_empty());
    assert_eq!(resolution.origin, Origin::ParentUntracked);
    assert_eq!(store.get(&pointer_key(5), 0), Ok(Some("root-5".to_string())));
}

#[test]
fn store_out_of_reach_degrades_to_a_fresh_conversation() {
    let mut store = MemoryStore::new();
    let root = resolve(&mut store, &message(1, "hello", None), BOT, 0);
    append_turn(&mut store, &root.key, &user("hello"), 0).unwrap();
    store.set_reachable(false);
    let resolution = resolve(&mut store, &message(2, "still there?", Some(1)), BOT, 1);
    assert_eq!(resolution.key, ThreadKey::mint(2));
    assert!(resolution.history.is_empty());
    assert_eq!(resolution.origin, Origin::Degraded(Fault::StoreUnavailable));
    store.set_reachable(true);
    assert_eq!(store.get(&pointer_key(2), 1), Ok(None));
    assert_eq!(store.read_list(&thread_key(&root.key)), Ok(vec!["user:hello".to_string()]));
}

#[test]
fn unreadable_history_degrades_to_a_fresh_conversation() {
    let mut store = MemoryStore::new();
    let root = resolve(&mut store, &message(1, "hello", None), BOT, 0);
    store.append_to_list(&thread_key(&root.key), &"no tag here".to_string(), 0).unwrap();
    let resolution = resolve(&mut store, &message(2, "and now?", Some(1)), BOT, 1);
    assert_eq!(resolution.key, ThreadKey::mint(2));
    assert!(resolution.history.is_empty());
    assert_eq!(resolution.origin, Origin::Degraded(Fault::MalformedInput));
    assert_eq!(store.read_list(&thread_key(&root.key)), Ok(vec!["no tag here".to_string()]));
}

#[test]
fn bot_message_joins_as_assistant_turn() {
    let mut store = MemoryStore::new();
    let root = resolve(&mut store, &message(1, "hello", None), BOT, 0);
    append_turn(&mut store, &root.key, &user("hello"), 0).unwrap();
    let answer = Message { id: 2, author: BOT, content: "hi!".to_string(), parent: Some(1) };
    let resolution = resolve(&mut store, &answer, BOT, 0);
    assert_eq!(resolution.key, root.key);
    let history = read_history(&mut store, &root.key, 0).unwrap();
    assert_eq!(
        contents(&history),
        vec![(Role::User, "hello".to_string()), (Role::Assistant, "hi!".to_string())]
    );
}

#[test]
fn conversation_survives_three_messages_and_an_eviction() {
    let mut store = MemoryStore::new();

    let a = message(10, "hello", None);
    let first = resolve(&mut store, &a, BOT, 0);
    assert_eq!(first.key, ThreadKey::mint(10));
    assert!(first.history.is_empty());
    append_turn(&mut store, &first.key, &user("hello"), 0).unwrap();

    let b = message(11, "how are you", Some(10));
    let second = resolve(&mut store, &b, BOT, 1);
    assert_eq!(second.key, first.key);
    assert_eq!(contents(&second.history), vec![(Role::User, "hello".to_string())]);
    let history = read_history(&mut store, &first.key, 1).unwrap();
    assert_eq!(
        contents(&history),
        vec![(Role::User, "hello".to_string()), (Role::User, "how are you".to_string())]
    );

    store.evict(&thread_key(&first.key));
    store.evict(&pointer_key(10));
    store.evict(&pointer_key(11));

    let c = message(12, "remember me?", Some(11));
    let third = resolve(&mut store, &c, BOT, 2);
    assert_eq!(third.key, ThreadKey::mint(12));
    assert_ne!(third.key, first.key);
    assert!(third.history.is_empty());
    assert_eq!(third.origin, Origin::ParentUntracked);
}

#[test]
fn appended_turns_are_read_back_in_order() {
    let mut store = MemoryStore::new();
    let key = ThreadKey::mint(77);
    let turns = vec![
        Turn { role: Role::User, content: "one".to_string() },
        Turn { role: Role::Assistant, content: "two: with a colon".to_string() },
        Turn { role: Role::User, content: "".to_string() },
        Turn { role: Role::Assistant, content: "user:looks like a tag\nand a line".to_string() },
    ];
    for turn in &turns {
        append_turn(&mut store, &key, turn, 3).unwrap();
    }
    let read = read_history(&mut store, &key, 3).unwrap();
    assert_eq!(contents(&read), contents(&turns));
}

#[test]
fn history_of_unknown_conversation_is_empty() {
    let mut store = MemoryStore::new();
    assert!(read_history(&mut store, &ThreadKey::mint(1), 0).unwrap().is_empty());
}

#[test]
fn history_errors_name_their_fault() {
    let mut store = MemoryStore::new();
    let key = ThreadKey::mint(3);
    store.append_to_list(&thread_key(&key), &"garbage".to_string(), 0).unwrap();
    assert_eq!(read_history(&mut store, &key, 0).unwrap_err(), Fault::MalformedInput);
    store.set_reachable(false);
    assert_eq!(read_history(&mut store, &key, 0).unwrap_err(), Fault::StoreUnavailable);
    assert_eq!(append_turn(&mut store, &key, &user("x"), 0), Err(Fault::StoreUnavailable));
}

#[test]
fn history_from_reply_reads_lists_only() {
    let list = StoreReply::List(vec!["user:a".to_string(), "assistant:b".to_string()]);
    let turns = history_from_reply(&list).unwrap();
    assert_eq!(
        contents(&turns),
        vec![(Role::User, "a".to_string()), (Role::Assistant, "b".to_string())]
    );
    assert_eq!(history_from_reply(&StoreReply::Unavailable).unwrap_err(), Fault::StoreUnavailable);
    assert_eq!(history_from_reply(&StoreReply::Done).unwrap_err(), Fault::MalformedInput);
    assert_eq!(
        history_from_reply(&StoreReply::List(vec!["x".to_string()])).unwrap_err(),
        Fault::MalformedInput
    );
}

#[test]
fn requests_name_the_conversation() {
    let key = ThreadKey::mint(8);
    match append_request(&key, &user("hey")) {
        StoreRequest::AppendToList { key, value } => {
            assert_eq!(key, "thread:root-8");
            assert_eq!(value, "user:hey");
        }
        other => panic!("unexpected request {:?}", other),
    }
    match history_request(&key) {
        StoreRequest::ReadList { key } => assert_eq!(key, "thread:root-8"),
        other => panic!("unexpected request {:?}", other),
    }
}

#[test]
fn steps_of_a_root_message() {
    let m = message(3, "hi", None);
    let (request, phase) = match begin_resolve(&m) {
        ResolveStep::Ask { request, phase } => (request, phase),
        other => panic!("unexpected step {:?}", other),
    };
    match request {
        StoreRequest::Put { key, value } => {
            assert_eq!(key, "pointer:3");
            assert_eq!(value, "root-3");
        }
        other => panic!("unexpected request {:?}", other),
    }
    assert!(matches!(phase, ResolvePhase::AwaitingRootLink { origin: Origin::Fresh }));
    match continue_resolve(&m, BOT, phase, StoreReply::Done) {
        ResolveStep::Finished(resolution) => {
            assert_eq!(resolution.key.text(), "root-3");
            assert_eq!(resolution.origin, Origin::Fresh);
        }
        other => panic!("unexpected step {:?}", other),
    }
}

#[test]
fn steps_of_a_reply() {
    let m = message(4, "more", Some(3));
    let phase = match begin_resolve(&m) {
        ResolveStep::Ask { request: StoreRequest::Get { key }, phase } => {
            assert_eq!(key, "pointer:3");
            phase
        }
        other => panic!("unexpected step {:?}", other),
    };
    let phase = match continue_resolve(&m, BOT, phase, StoreReply::Value("root-3".to_string())) {
        ResolveStep::Ask { request: StoreRequest::ReadList { key }, phase } => {
            assert_eq!(key, "thread:root-3");
            phase
        }
        other => panic!("unexpected step {:?}", other),
    };
    let phase = match continue_resolve(&m, BOT, phase, StoreReply::List(vec!["user:hi".to_string()])) {
        ResolveStep::Ask { request: StoreRequest::AppendToList { key, value }, phase } => {
            assert_eq!(key, "thread:root-3");
            assert_eq!(value, "user:more");
            phase
        }
        other => panic!("unexpected step {:?}", other),
    };
    let phase = match continue_resolve(&m, BOT, phase, StoreReply::Done) {
        ResolveStep::Ask { request: StoreRequest::Put { key, value }, phase } => {
            assert_eq!(key, "pointer:4");
            assert_eq!(value, "root-3");
            phase
        }
        other => panic!("unexpected step {:?}", other),
    };
    match continue_resolve(&m, BOT, phase, StoreReply::Done) {
        ResolveStep::Finished(resolution) => {
            assert_eq!(resolution.key.text(), "root-3");
            assert_eq!(resolution.origin, Origin::Continued);
            assert_eq!(contents(&resolution.history), vec![(Role::User, "hi".to_string())]);
        }
        other => panic!("unexpected step {:?}", other),
    }
}

#[test]
fn failure_in_the_middle_falls_back_to_root() {
    let m = message(4, "more", Some(3));
    let phase = match begin_resolve(&m) {
        ResolveStep::Ask { phase, .. } => phase,
        other => panic!("unexpected step {:?}", other),
    };
    let phase = match continue_resolve(&m, BOT, phase, StoreReply::Value("root-3".to_string())) {
        ResolveStep::Ask { phase, .. } => phase,
        other => panic!("unexpected step {:?}", other),
    };
    let phase = match continue_resolve(&m, BOT, phase, StoreReply::Unavailable) {
        ResolveStep::Ask { request: StoreRequest::Put { key, value }, phase } => {
            assert_eq!(key, "pointer:4");
            assert_eq!(value, "root-4");
            phase
        }
        other => panic!("unexpected step {:?}", other),
    };
    match continue_resolve(&m, BOT, phase, StoreReply::Done) {
        ResolveStep::Finished(resolution) => {
            assert_eq!(resolution.key.text(), "root-4");
            assert!(resolution.history.is_empty());
            assert_eq!(resolution.origin, Origin::Degraded(Fault::StoreUnavailable));
        }
        other => panic!("unexpected step {:?}", other),
    }
}

#[test]
fn two_replies_to_one_message_share_its_conversation() {
    let mut store = MemoryStore::new();
    let root = resolve(&mut store, &message(1, "hello", None), BOT, 0);
    append_turn(&mut store, &root.key, &user("hello"), 0).unwrap();
    let first = resolve(&mut store, &message(2, "one", Some(1)), BOT, 1);
    let second = resolve(&mut store, &message(3, "two", Some(1)), BOT, 1);
    assert_eq!(first.key, root.key);
    assert_eq!(second.key, root.key);
    assert_eq!(contents(&first.history), vec![(Role::User, "hello".to_string())]);
    assert_eq!(
        contents(&second.history),
        vec![(Role::User, "hello".to_string()), (Role::User, "one".to_string())]
    );
    let history = read_history(&mut store, &root.key, 1).unwrap();
    assert_eq!(history.len(), 3);
    assert_eq!(history[2].content, "two");
}

#[test]
fn pointers_never_expire() {
    let mut store = MemoryStore::new();
    resolve(&mut store, &message(1, "hello", None), BOT, 0);
    resolve(&mut store, &message(2, "again", Some(1)), BOT, 0);
    assert_eq!(store.get(&pointer_key(1), u64::MAX), Ok(Some("root-1".to_string())));
    assert_eq!(store.get(&pointer_key(2), u64::MAX), Ok(Some("root-1".to_string())));
}

use chat_relay::store::{copy_texts, fault_in, Fault, MemoryStore, StoreReply, StoreRequest};

fn text(s: &str) -> String {
    s.to_string()
}

#[test]
fn empty_store_holds_nothing() {
    let store = MemoryStore::new();
    assert_eq!(store.get(&text("k"), 0), Ok(None));
    assert_eq!(store.read_list(&text("k")), Ok(vec![]));
}

#[test]
fn set_overwrites_and_never_expires() {
    let mut store = MemoryStore::new();
    store.set(&text("k"), &text("one"), 5).unwrap();
    store.set(&text("k"), &text("two"), 6).unwrap();
    store.set(&text("other"), &text("x"), 6).unwrap();
    assert_eq!(store.get(&text("k"), u64::MAX), Ok(Some(text("two"))));
    assert_eq!(store.get(&text("other"), 0), Ok(Some(text("x"))));
}

#[test]
fn expiry_counts_from_the_time_of_writing() {
    let mut store = MemoryStore::new();
    store.set_with_expiry(&text("k"), &text("v"), 10, 100).unwrap();
    assert_eq!(store.get(&text("k"), 100), Ok(Some(text("v"))));
    assert_eq!(store.get(&text("k"), 109), Ok(Some(text("v"))));
    assert_eq!(store.get(&text("k"), 110), Ok(None));
    store.set_with_expiry(&text("z"), &text("v"), 0, 100).unwrap();
    assert_eq!(store.get(&text("z"), 100), Ok(None));
    store.set_with_expiry(&text("far"), &text("v"), u64::MAX, u64::MAX).unwrap();
    assert_eq!(store.get(&text("far"), u64::MAX), Ok(Some(text("v"))));
}

#[test]
fn plain_set_clears_a_deadline() {
    let mut store = MemoryStore::new();
    store.set_with_expiry(&text("k"), &text("v"), 1, 0).unwrap();
    store.set(&text("k"), &text("w"), 0).unwrap();
    assert_eq!(store.get(&text("k"), 1000), Ok(Some(text("w"))));
}

#[test]
fn lists_grow_at_the_end() {
    let mut store = MemoryStore::new();
    store.append_to_list(&text("l"), &text("a"), 0).unwrap();
    store.append_to_list(&text("m"), &text("x"), 0).unwrap();
    store.append_to_list(&text("l"), &text("b"), 0).unwrap();
    store.append_to_list(&text("l"), &text("a"), 0).unwrap();
    assert_eq!(store.read_list(&text("l")), Ok(vec![text("a"), text("b"), text("a")]));
    assert_eq!(store.read_list(&text("m")), Ok(vec![text("x")]));
}

#[test]
fn values_and_lists_do_not_mix() {
    let mut store = MemoryStore::new();
    store.set(&text("k"), &text("v"), 0).unwrap();
    store.append_to_list(&text("k"), &text("item"), 0).unwrap();
    assert_eq!(store.get(&text("k"), 0), Ok(Some(text("v"))));
    assert_eq!(store.read_list(&text("k")), Ok(vec![text("item")]));
}

#[test]
fn evict_drops_one_key() {
    let mut store = MemoryStore::new();
    store.set(&text("k"), &text("v"), 0).unwrap();
    store.set(&text("j"), &text("w"), 0).unwrap();
    store.append_to_list(&text("k"), &text("item"), 0).unwrap();
    store.evict(&text("k"));
    assert_eq!(store.get(&text("k"), 0), Ok(None));
    assert_eq!(store.read_list(&text("k")), Ok(vec![]));
    assert_eq!(store.get(&text("j"), 0), Ok(Some(text("w"))));
}

#[test]
fn store_out_of_reach_fails_every_call_and_keeps_its_content() {
    let mut store = MemoryStore::new();
    store.set(&text("k"), &text("v"), 0).unwrap();
    store.set_reachable(false);
    assert_eq!(store.get(&text("k"), 0), Err(Fault::StoreUnavailable));
    assert_eq!(store.set(&text("k"), &text("w"), 0), Err(Fault::StoreUnavailable));
    assert_eq!(store.set_with_expiry(&text("k"), &text("w"), 1, 0), Err(Fault::StoreUnavailable));
    assert_eq!(store.append_to_list(&text("k"), &text("w"), 0), Err(Fault::StoreUnavailable));
    assert_eq!(store.read_list(&text("k")), Err(Fault::StoreUnavailable));
    store.set_reachable(true);
    assert_eq!(store.get(&text("k"), 0), Ok(Some(text("v"))));
    assert_eq!(store.read_list(&text("k")), Ok(vec![]));
}

#[test]
fn serve_answers_each_request() {
    let mut store = MemoryStore::new();
    let put = StoreRequest::Put { key: text("k"), value: text("v") };
    assert!(matches!(store.serve(&put, 0), StoreReply::Done));
    match store.serve(&StoreRequest::Get { key: text("k") }, 0) {
        StoreReply::Value(v) => assert_eq!(v, "v"),
        other => panic!("unexpected reply {:?}", other),
    }
    assert!(matches!(store.serve(&StoreRequest::Get { key: text("x") }, 0), StoreReply::NotFound));
    let timed = StoreRequest::PutWithExpiry { key: text("t"), value: text("v"), ttl_seconds: 2 };
    assert!(matches!(store.serve(&timed, 10), StoreReply::Done));
    assert!(matches!(store.serve(&StoreRequest::Get { key: text("t") }, 12), StoreReply::NotFound));
    let append = StoreRequest::AppendToList { key: text("l"), value: text("i") };
    assert!(matches!(store.serve(&append, 0), StoreReply::Done));
    match store.serve(&StoreRequest::ReadList { key: text("l") }, 0) {
        StoreReply::List(items) => assert_eq!(items, vec![text("i")]),
        other => panic!("unexpected reply {:?}", other),
    }
    store.set_reachable(false);
    assert!(matches!(store.serve(&put, 0), StoreReply::Unavailable));
}

#[test]
fn faults_of_replies() {
    assert_eq!(fault_in(&StoreReply::Unavailable), Fault::StoreUnavailable);
    assert_eq!(fault_in(&StoreReply::NotFound), Fault::MalformedInput);
    assert_eq!(fault_in(&StoreReply::Done), Fault::MalformedInput);
}

#[test]
fn copy_texts_copies() {
    let texts = vec![text("a"), text(""), text("c")];
    assert_eq!(copy_texts(&texts), texts);
}

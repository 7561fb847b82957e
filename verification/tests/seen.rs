use chat_relay::keys::seen_key;
use chat_relay::seen::{
    begin_check, check_and_record, continue_check, message_link, store_message, url_exists,
    SeenPhase, SeenStep, Sighting, TTL_SECONDS,
};
use chat_relay::store::{Fault, MemoryStore, StoreReply, StoreRequest};

#[test]
fn new_link_is_not_seen_then_seen_then_forgotten() {
    let mut store = MemoryStore::new();
    let url = "https://example.com/page";
    let first = check_and_record(&mut store, url, "ref-1", TTL_SECONDS, 1000);
    assert_eq!(first, Sighting { seen: false, fault: None });
    let second = check_and_record(&mut store, url, "ref-2", TTL_SECONDS, 1000 + 86399);
    assert_eq!(second, Sighting { seen: true, fault: None });
    assert_eq!(store.get(&seen_key(url), 1000 + 86399), Ok(Some("ref-1".to_string())));
    let third = check_and_record(&mut store, url, "ref-3", TTL_SECONDS, 1000 + 86400);
    assert_eq!(third, Sighting { seen: false, fault: None });
    assert_eq!(store.get(&seen_key(url), 1000 + 86400), Ok(Some("ref-3".to_string())));
}

#[test]
fn seen_link_keeps_its_first_deadline() {
    let mut store = MemoryStore::new();
    check_and_record(&mut store, "a.com", "r", 10, 0);
    assert!(check_and_record(&mut store, "a.com", "r", 10, 9).seen);
    assert!(!check_and_record(&mut store, "a.com", "r", 10, 10).seen);
}

#[test]
fn links_are_compared_as_written() {
    let mut store = MemoryStore::new();
    assert!(!check_and_record(&mut store, "http://a.com", "r", TTL_SECONDS, 0).seen);
    assert!(!check_and_record(&mut store, "http://a.com/", "r", TTL_SECONDS, 0).seen);
    assert!(!check_and_record(&mut store, "HTTP://A.COM", "r", TTL_SECONDS, 0).seen);
    assert!(check_and_record(&mut store, "http://a.com", "r", TTL_SECONDS, 1).seen);
    assert!(check_and_record(&mut store, "http://a.com/", "r", TTL_SECONDS, 1).seen);
}

#[test]
fn store_out_of_reach_counts_as_not_seen() {
    let mut store = MemoryStore::new();
    check_and_record(&mut store, "a.com", "r", TTL_SECONDS, 0);
    store.set_reachable(false);
    let sighting = check_and_record(&mut store, "a.com", "r", TTL_SECONDS, 1);
    assert_eq!(sighting, Sighting { seen: false, fault: Some(Fault::StoreUnavailable) });
}

#[test]
fn ttl_is_a_day() {
    assert_eq!(TTL_SECONDS, 60 * 60 * 24);
}

#[test]
fn url_exists_only_for_a_value() {
    assert!(url_exists(&StoreReply::Value("x".to_string())));
    assert!(!url_exists(&StoreReply::NotFound));
    assert!(!url_exists(&StoreReply::Unavailable));
    assert!(!url_exists(&StoreReply::Done));
    assert!(!url_exists(&StoreReply::List(vec![])));
}

#[test]
fn message_link_names_guild_channel_and_message() {
    assert_eq!(message_link(Some(1), 22, 333), "https://discord.com/channels/1/22/333");
    assert_eq!(
        message_link(Some(0), u64::MAX, 10),
        "https://discord.com/channels/0/18446744073709551615/10"
    );
    assert_eq!(message_link(None, 22, 333), "https://discord.com/channels/@me/22/333");
}

#[test]
fn store_message_records_under_the_link() {
    match store_message("a.com/x", "where", 60) {
        StoreRequest::PutWithExpiry { key, value, ttl_seconds } => {
            assert_eq!(key, "seenurl:a.com/x");
            assert_eq!(value, "where");
            assert_eq!(ttl_seconds, 60);
        }
        other => panic!("unexpected request {:?}", other),
    }
}

#[test]
fn steps_of_a_check() {
    let phase = match begin_check("a.com") {
        SeenStep::Ask { request: StoreRequest::Get { key }, phase } => {
            assert_eq!(key, "seenurl:a.com");
            phase
        }
        other => panic!("unexpected step {:?}", other),
    };
    assert_eq!(phase, SeenPhase::AwaitingLookup);
    match continue_check("a.com", "r", 5, phase, &StoreReply::Value("r".to_string())) {
        SeenStep::Finished(sighting) => assert_eq!(sighting, Sighting { seen: true, fault: None }),
        other => panic!("unexpected step {:?}", other),
    }
    let phase = match continue_check("a.com", "r", 5, phase, &StoreReply::NotFound) {
        SeenStep::Ask { request: StoreRequest::PutWithExpiry { key, value, ttl_seconds }, phase } => {
            assert_eq!(key, "seenurl:a.com");
            assert_eq!(value, "r");
            assert_eq!(ttl_seconds, 5);
            phase
        }
        other => panic!("unexpected step {:?}", other),
    };
    assert_eq!(phase, SeenPhase::AwaitingRecord { fault: None });
    match continue_check("a.com", "r", 5, phase, &StoreReply::Done) {
        SeenStep::Finished(sighting) => assert_eq!(sighting, Sighting { seen: false, fault: None }),
        other => panic!("unexpected step {:?}", other),
    }
    match continue_check("a.com", "r", 5, phase, &StoreReply::Unavailable) {
        SeenStep::Finished(sighting) => {
            assert_eq!(sighting, Sighting { seen: false, fault: Some(Fault::StoreUnavailable) })
        }
        other => panic!("unexpected step {:?}", other),
    }
    match continue_check("a.com", "r", 5, SeenPhase::AwaitingLookup, &StoreReply::Unavailable) {
        SeenStep::Ask { phase, .. } => {
            assert_eq!(phase, SeenPhase::AwaitingRecord { fault: Some(Fault::StoreUnavailable) })
        }
        other => panic!("unexpected step {:?}", other),
    }
}

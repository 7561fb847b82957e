use chat_relay::conversation::{
    decode_turn, decode_turns, encode_turn, role_for, turn_for, Message, Role, Turn,
};
use chat_relay::keys::{pointer_key, seen_key, thread_key, ThreadKey};
use chat_relay::shelf::Shelf;
use chat_relay::store::Listing;
use chat_relay::text::{
    has_prefix, is_whitespace, joined, render_decimal, render_signed, split_words, text_between,
    text_from,
};
use chat_relay::{Data, RedisClient};

#[test]
fn decimals() {
    assert_eq!(render_decimal(0), "0");
    assert_eq!(render_decimal(7), "7");
    assert_eq!(render_decimal(10), "10");
    assert_eq!(render_decimal(1042797425524183040), "1042797425524183040");
    assert_eq!(render_decimal(u64::MAX), "18446744073709551615");
    for n in [0u64, 9, 10, 99, 100, 12345, 900000] {
        assert_eq!(render_decimal(n), n.to_string());
    }
}

#[test]
fn signed_decimals() {
    assert_eq!(render_signed(0), "0");
    assert_eq!(render_signed(-1), "-1");
    assert_eq!(render_signed(23), "23");
    assert_eq!(render_signed(i64::MIN), "-9223372036854775808");
    assert_eq!(render_signed(i64::MAX), "9223372036854775807");
}

#[test]
fn prefixes() {
    assert!(has_prefix("http://a", "http"));
    assert!(has_prefix("http", "http"));
    assert!(has_prefix("anything", ""));
    assert!(!has_prefix("htt", "http"));
    assert!(!has_prefix("xhttp", "http"));
    assert!(has_prefix("最後更新: x", "最後"));
}

#[test]
fn text_from_counts_characters() {
    assert_eq!(text_from("user:hello", 5), "hello");
    assert_eq!(text_from("abc", 3), "");
    assert_eq!(text_from("abc", 0), "abc");
    assert_eq!(text_from("最後更新", 2), "更新");
}

#[test]
fn joined_appends() {
    assert_eq!(joined("a", "b"), "ab");
    assert_eq!(joined("", ""), "");
}

#[test]
fn keys_are_namespaced() {
    assert_eq!(pointer_key(12), "pointer:12");
    assert_eq!(thread_key(&ThreadKey::mint(12)), "thread:root-12");
    assert_eq!(seen_key("http://a.com"), "seenurl:http://a.com");
    assert_eq!(seen_key(""), "seenurl:");
}

#[test]
fn thread_keys_compare_by_text() {
    assert_eq!(ThreadKey::mint(5), ThreadKey::from_text("root-5".to_string()));
    assert_ne!(ThreadKey::mint(5), ThreadKey::mint(50));
    assert_eq!(ThreadKey::mint(5).clone(), ThreadKey::mint(5));
    assert_eq!(ThreadKey::from_text("anything".to_string()).text(), "anything");
}

#[test]
fn turns_are_tagged_with_their_role() {
    let said = Turn { role: Role::User, content: "hi: there".to_string() };
    let answered = Turn { role: Role::Assistant, content: "".to_string() };
    assert_eq!(encode_turn(&said), "user:hi: there");
    assert_eq!(encode_turn(&answered), "assistant:");
    let back = decode_turn("user:hi: there").unwrap();
    assert_eq!((back.role, back.content.as_str()), (Role::User, "hi: there"));
    let back = decode_turn("assistant:").unwrap();
    assert_eq!((back.role, back.content.as_str()), (Role::Assistant, ""));
    assert!(decode_turn("system:x").is_none());
    assert!(decode_turn("").is_none());
    assert!(decode_turn("user").is_none());
}

#[test]
fn any_unreadable_entry_spoils_the_list() {
    let good = vec!["user:a".to_string(), "assistant:b".to_string()];
    let turns = decode_turns(&good).unwrap();
    assert_eq!(turns.len(), 2);
    assert_eq!(turns[1].content, "b");
    let bad = vec!["user:a".to_string(), "b".to_string()];
    assert!(decode_turns(&bad).is_none());
    assert!(decode_turns(&vec![]).unwrap().is_empty());
}

#[test]
fn roles_follow_the_author() {
    assert_eq!(role_for(9, 9), Role::Assistant);
    assert_eq!(role_for(8, 9), Role::User);
    let m = Message { id: 1, author: 8, content: "x".to_string(), parent: None };
    let turn = turn_for(&m, 9);
    assert_eq!((turn.role, turn.content.as_str()), (Role::User, "x"));
    let copy = m.clone();
    assert_eq!((copy.id, copy.author, copy.content.as_str(), copy.parent), (1, 8, "x", None));
}

#[test]
fn shelf_keeps_the_last_item_for_a_key() {
    let mut shelf: Shelf<Listing> = Shelf::new();
    let a = "a".to_string();
    let b = "b".to_string();
    assert!(shelf.get(&a).is_none());
    shelf.put(a.clone(), Listing { items: vec!["1".to_string()] });
    shelf.put(b.clone(), Listing { items: vec![] });
    shelf.put(a.clone(), Listing { items: vec!["2".to_string()] });
    assert_eq!(shelf.get(&a).unwrap().items, vec!["2"]);
    assert!(shelf.get(&b).unwrap().items.is_empty());
    assert_eq!(shelf.take(&a).unwrap().items, vec!["2"]);
    assert!(shelf.take(&a).is_none());
    assert!(shelf.get(&b).is_some());
}

#[test]
fn shared_data_names_store_and_bot() {
    let data = Data { redis_client: RedisClient { url: "redis://localhost".to_string() }, bot_id: 3 };
    assert_eq!(data.redis_client.url, "redis://localhost");
    assert_eq!(data.bot_id, 3);
}

#[test]
fn white_space_is_what_unicode_says() {
    for code in 0..=0x10FFFFu32 {
        if let Some(c) = char::from_u32(code) {
            assert_eq!(is_whitespace(c), c.is_whitespace(), "code {:x}", code);
        }
    }
}

#[test]
fn words_are_the_stretches_between_white_space() {
    assert_eq!(split_words("a bc  d"), vec!["a", "bc", "d"]);
    assert_eq!(split_words("  lead and trail\t\n"), vec!["lead", "and", "trail"]);
    assert!(split_words("").is_empty());
    assert!(split_words(" \u{3000}\u{85}\r\n").is_empty());
    assert_eq!(split_words("one"), vec!["one"]);
    assert_eq!(split_words("最後\u{2003}更新"), vec!["最後", "更新"]);
    let samples = ["Mary   had\ta\u{2009}little  \n lamb", " x", "x ", "\u{a0}x\u{a0}y", "no-break"];
    for sample in samples {
        let expected: Vec<String> = sample.split_whitespace().map(|w| w.to_string()).collect();
        assert_eq!(split_words(sample), expected);
    }
}

#[test]
fn text_between_counts_characters() {
    assert_eq!(text_between("hello", 1, 3), "el");
    assert_eq!(text_between("hello", 2, 2), "");
    assert_eq!(text_between("最後更新", 1, 3), "後更");
}

//! What is done for every message that arrives: answering it where it is
//! meant for the bot, and marking it where it holds a link that was posted
//! before.

use vstd::prelude::*;
use crate::conversation::{Message, MessageView};
use crate::keys::{seen_key, seen_name};
use crate::links::{extract_urls, links_in, optional_views};
use crate::orchestrator::{answer_view, handled, post_for, post_text, settle, Outcome};
use crate::seen::{any_seen, check_and_record, recorded, recorded_all, Sighting, TTL_SECONDS};
use crate::store::{Fault, MemoryStore, RequestView, StoreRequest, StoreState};
use crate::text::{joined, text_views};
use crate::threads::{resolved, Resolution};

verus! {

/// The number by which the chat system knows the bot.
pub const BOT_ID: u64 = 1042797425524183040;

/// Whether a message mentions the bot and nobody else.
pub fn is_tagging_me_only(mentions: &Vec<u64>, bot_id: u64) -> (r: bool)
    ensures
        r == (mentions@.len() == 1 && mentions@[0] == bot_id),
{
    mentions.len() == 1 && mentions[0] == bot_id
}

/// The question that looks `url` up among the links already seen.
pub fn lookup_request(url: &str) -> (r: StoreRequest)
    ensures
        r@ == (RequestView::Get { key: seen_name(url@) }),
{
    StoreRequest::Get { key: seen_key(url) }
}

/// What is said of a link that was posted before.
pub open spec fn ming_text(url: Seq<char>) -> Seq<char> {
    "MING! "@ + url
}

/// What is said of a link that was posted before.
pub fn ming_reply(url: &str) -> (r: String)
    ensures
        r@ == ming_text(url@),
{
    joined("MING! ", url)
}

/// What is said of the links `urls`, one after the other: a word for each
/// that is on record at the second `now`, nothing for the others.
pub open spec fn ming_replies(
    state: StoreState,
    in_reach: bool,
    urls: Seq<Seq<char>>,
    now: nat,
) -> Seq<Seq<char>>
    decreases urls.len(),
{
    if urls.len() == 0 {
        Seq::empty()
    } else if in_reach && state.value_at(seen_name(urls.last()), now) is Some {
        ming_replies(state, in_reach, urls.drop_last(), now).push(ming_text(urls.last()))
    } else {
        ming_replies(state, in_reach, urls.drop_last(), now)
    }
}

/// What is said of the links `urls`, looked up in a store held in memory:
/// a word for each that is on record, in order. Nothing is recorded.
pub fn chat_replies(store: &MemoryStore, urls: &Vec<String>, now: u64) -> (r: Vec<String>)
    ensures
        text_views(r@) == ming_replies(store@, store.in_reach(), text_views(urls@), now as nat),
{
    let ghost all = text_views(urls@);
    let mut replies: Vec<String> = Vec::new();
    let mut i: usize = 0;
    assert(all.take(0) =~= Seq::<Seq<char>>::empty());
    assert(text_views(replies@) =~= Seq::<Seq<char>>::empty());
    while i < urls.len()
        invariant
            i <= urls.len(),
            all == text_views(urls@),
            text_views(replies@) == ming_replies(
                store@,
                store.in_reach(),
                all.take(i as int),
                now as nat,
            ),
        decreases urls.len() - i,
    {
        let ghost before = text_views(replies@);
        proof {
            assert(all.take(i as int + 1).drop_last() =~= all.take(i as int));
            assert(all.take(i as int + 1).last() == all[i as int]);
        }
        let key = seen_key(urls[i].as_str());
        match store.get(&key, now) {
            Ok(Some(_)) => {
                replies.push(ming_reply(urls[i].as_str()));
                assert(text_views(replies@) =~= before.push(ming_text(all[i as int])));
            },
            _ => {},
        }
        i += 1;
    }
    assert(all.take(urls.len() as int) =~= all);
    replies
}

/// What came of the work on a message.
#[derive(Debug)]
pub struct Handling {
    /// How the work ended.
    pub outcome: Outcome,
    /// The conversation that the message was resolved to: its key, and the
    /// turns that came before the message. Nothing for a message that was
    /// left alone.
    pub resolution: Option<Resolution>,
    /// What was posted for the user: the model's answer, or word of its
    /// failure. Nothing for a message that was left alone.
    pub post: Option<String>,
}

/// Whether a message is taken up: it mentions the bot and nobody else, and
/// the bot did not write it.
pub open spec fn taken_up(message: MessageView, mentions: Seq<u64>, bot_id: u64) -> bool {
    mentions.len() == 1 && mentions[0] == bot_id && message.author != bot_id
}

/// Does the work on a message against a store held in memory, with the
/// model's answer and the outcome of posting given in advance.
///
/// A message that does not mention the bot alone, or that the bot wrote
/// itself, is left alone. Any other message is resolved to its conversation
/// and its turn put on record. The model's answer is what is posted; where
/// the model failed, word of the failure is posted in its place and the
/// work ends there. Where the answer was posted, the bot's reply is
/// resolved as a reply to the message, so that it joins the conversation.
/// One post is made at most.
pub fn chat_handler(
    store: &mut MemoryStore,
    message: &Message,
    mentions: &Vec<u64>,
    bot_id: u64,
    now: u64,
    model: &Result<String, String>,
    posted: Option<u64>,
) -> (r: Handling)
    ensures
        final(store).in_reach() == old(store).in_reach(),
        taken_up(message@, mentions@, bot_id) ==> {
            &&& (final(store)@, r.outcome) == handled(
                old(store)@,
                old(store).in_reach(),
                message@,
                bot_id,
                now as nat,
                answer_view(*model),
                posted,
            )
            &&& r.resolution matches Some(resolution) && resolution@ == resolved(
                old(store)@,
                old(store).in_reach(),
                message@,
                bot_id,
                now as nat,
            ).1
            &&& r.post matches Some(text) && text@ == post_for(answer_view(*model))
        },
        !taken_up(message@, mentions@, bot_id) ==> {
            &&& final(store)@ == old(store)@
            &&& r.outcome == Outcome::Ignored
            &&& r.resolution is None
            &&& r.post is None
        },
{
    if !is_tagging_me_only(mentions, bot_id) || message.author == bot_id {
        return Handling { outcome: Outcome::Ignored, resolution: None, post: None };
    }
    let resolution = settle(store, message, bot_id, now);
    let post = post_text(model);
    let outcome = match (model, posted) {
        (Ok(text), Some(id)) => {
            let reply = Message {
                id,
                author: bot_id,
                content: text.clone(),
                parent: Some(message.id),
            };
            let joined = settle(store, &reply, bot_id, now);
            Outcome::Answered { joined: joined.origin }
        },
        _ => Outcome::Failed(Fault::RemoteCallFailed),
    };
    Handling { outcome, resolution: Some(resolution), post: Some(post) }
}

/// Checks the links `urls` one after the other against a store held in
/// memory, and records those that were not on record.
pub fn check_links(
    store: &mut MemoryStore,
    urls: &Vec<String>,
    reference: &str,
    ttl_seconds: u64,
    now: u64,
) -> (r: Vec<Sighting>)
    ensures
        final(store).in_reach() == old(store).in_reach(),
        (final(store)@, r@) == recorded_all(
            old(store)@,
            old(store).in_reach(),
            text_views(urls@),
            reference@,
            ttl_seconds,
            now as nat,
        ),
{
    let ghost all = text_views(urls@);
    let ghost in_reach = store.in_reach();
    let mut sightings: Vec<Sighting> = Vec::new();
    let mut i: usize = 0;
    assert(all.take(0) =~= Seq::<Seq<char>>::empty());
    while i < urls.len()
        invariant
            i <= urls.len(),
            all == text_views(urls@),
            in_reach == old(store).in_reach(),
            store.in_reach() == in_reach,
            (store@, sightings@) == recorded_all(
                old(store)@,
                in_reach,
                all.take(i as int),
                reference@,
                ttl_seconds,
                now as nat,
            ),
        decreases urls.len() - i,
    {
        proof {
            assert(all.take(i as int + 1).drop_last() =~= all.take(i as int));
            assert(all.take(i as int + 1).last() == all[i as int]);
        }
        let sighting = check_and_record(store, urls[i].as_str(), reference, ttl_seconds, now);
        sightings.push(sighting);
        i += 1;
    }
    assert(all.take(urls.len() as int) =~= all);
    sightings
}

/// Whether one of the links was on record: whether the message is to be
/// marked.
pub fn should_react(sightings: &Vec<Sighting>) -> (r: bool)
    ensures
        r == any_seen(sightings@),
{
    let mut i: usize = 0;
    while i < sightings.len()
        invariant
            i <= sightings.len(),
            forall|j: int| 0 <= j < i ==> !(#[trigger] sightings@[j]).seen,
        decreases sightings.len() - i,
    {
        if sightings[i].seen {
            return true;
        }
        i += 1;
    }
    false
}

/// Whether a message with the links `links` is to be marked, and what the
/// store holds once its links have been checked: each link is checked and
/// recorded in turn, and the message is marked if one of them was on record.
pub open spec fn ming_outcome(
    state: StoreState,
    in_reach: bool,
    links: Option<Seq<Seq<char>>>,
    reference: Seq<char>,
    now: nat,
) -> (StoreState, bool) {
    match links {
        None => (state, false),
        Some(urls) => {
            let (after, sightings) = recorded_all(
                state,
                in_reach,
                urls,
                reference,
                TTL_SECONDS,
                now,
            );
            (after, any_seen(sightings))
        },
    }
}

/// Checks the links of a message against a store held in memory, given the
/// links that were found in its text: each link is checked and recorded in
/// turn. `reference` is what is kept with the links that are new. The
/// result says whether the message is to be marked; a message without links
/// is not, and leaves the store as it was.
pub fn mark_links(
    store: &mut MemoryStore,
    links: Option<Vec<String>>,
    reference: &str,
    now: u64,
) -> (r: bool)
    ensures
        final(store).in_reach() == old(store).in_reach(),
        (final(store)@, r) == ming_outcome(
            old(store)@,
            old(store).in_reach(),
            optional_views(links),
            reference@,
            now as nat,
        ),
{
    match links {
        Some(urls) => {
            let sightings = check_links(store, &urls, reference, TTL_SECONDS, now);
            should_react(&sightings)
        },
        None => false,
    }
}

/// Checks the links in the text of a message against a store held in
/// memory. `reference` is what is kept with the links that are new. The
/// result says whether the message is to be marked. The links are those
/// that `extract_urls` finds.
pub fn ming_handler(store: &mut MemoryStore, content: &str, reference: &str, now: u64) -> (r: bool)
    ensures
        final(store).in_reach() == old(store).in_reach(),
        (final(store)@, r) == ming_outcome(
            old(store)@,
            old(store).in_reach(),
            links_in(content@),
            reference@,
            now as nat,
        ),
{
    mark_links(store, extract_urls(String::from_str(content)), reference, now)
}

/// Every link of a message is checked by itself: what is reported for one
/// of them is what checking it alone would report, against what the store
/// holds once the links before it have been checked.
pub proof fn lemma_links_checked_in_turn(
    state: StoreState,
    in_reach: bool,
    urls: Seq<Seq<char>>,
    reference: Seq<char>,
    ttl_seconds: u64,
    now: nat,
    at: int,
)
    requires
        0 <= at < urls.len(),
    ensures
        recorded_all(state, in_reach, urls, reference, ttl_seconds, now).1.len() == urls.len(),
        recorded_all(state, in_reach, urls, reference, ttl_seconds, now).1[at] == recorded(
            recorded_all(state, in_reach, urls.take(at), reference, ttl_seconds, now).0,
            in_reach,
            urls[at],
            reference,
            ttl_seconds,
            now,
        ).1,
    decreases urls.len(),
{
    lemma_recorded_all_len(state, in_reach, urls, reference, ttl_seconds, now);
    if at == urls.len() - 1 {
        assert(urls.take(at) =~= urls.drop_last());
        lemma_recorded_all_len(state, in_reach, urls.drop_last(), reference, ttl_seconds, now);
    } else {
        lemma_links_checked_in_turn(
            state,
            in_reach,
            urls.drop_last(),
            reference,
            ttl_seconds,
            now,
            at,
        );
        assert(urls.drop_last().take(at) =~= urls.take(at));
    }
}

/// One sighting is reported for each link.
pub proof fn lemma_recorded_all_len(
    state: StoreState,
    in_reach: bool,
    urls: Seq<Seq<char>>,
    reference: Seq<char>,
    ttl_seconds: u64,
    now: nat,
)
    ensures
        recorded_all(state, in_reach, urls, reference, ttl_seconds, now).1.len() == urls.len(),
    decreases urls.len(),
{
    if urls.len() > 0 {
        lemma_recorded_all_len(state, in_reach, urls.drop_last(), reference, ttl_seconds, now);
    }
}

} // verus!

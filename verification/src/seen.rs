//! The record of links already seen.
//!
//! A link is recorded when it is first seen, under its text as it was
//! written, and forgotten a fixed time later. Two links are the same only
//! if their texts are equal, character for character: `http://a.com` and
//! `http://a.com/` are two links.

use vstd::prelude::*;
use crate::conversation::MessageView;
use crate::keys::{lemma_names_disjoint, pointer_name, seen_key, seen_name};
use crate::store::{
    fault_in, fault_of, Fault, MemoryStore, ReplyView, RequestView, StoreReply, StoreRequest,
    StoreState,
};
use crate::text::{decimal, render_decimal};
use crate::threads::resolved;

verus! {

/// For how many seconds a link is remembered, unless told otherwise: a day.
pub const TTL_SECONDS: u64 = 86400;

/// The place of a guild in the address of a message: the guild's number,
/// or `@me` for a message outside any guild.
pub open spec fn guild_text(guild: Option<u64>) -> Seq<char> {
    match guild {
        Some(id) => decimal(id as nat),
        None => "@me"@,
    }
}

/// The address of a message in its channel and guild: what is kept with a
/// link, to show where it was first seen.
pub open spec fn link_text(guild: Option<u64>, channel: u64, message: u64) -> Seq<char> {
    "https://discord.com/channels/"@ + guild_text(guild) + seq!['/'] + decimal(channel as nat)
        + seq!['/'] + decimal(message as nat)
}

/// The address of a message in its channel and guild.
pub fn message_link(guild: Option<u64>, channel: u64, message: u64) -> (r: String)
    ensures
        r@ == link_text(guild, channel, message),
{
    proof {
        reveal_strlit("/");
        assert("/"@ =~= seq!['/']);
    }
    let mut r = String::from_str("https://discord.com/channels/");
    match guild {
        Some(id) => {
            let guild_digits = render_decimal(id);
            r.append(guild_digits.as_str());
        },
        None => {
            r.append("@me");
        },
    }
    r.append("/");
    let channel_digits = render_decimal(channel);
    r.append(channel_digits.as_str());
    r.append("/");
    let message_digits = render_decimal(message);
    r.append(message_digits.as_str());
    r
}

/// Whether the store's answer to a lookup shows that the link is on record.
/// Any other answer, a failure too, counts as not seen.
pub fn url_exists(reply: &StoreReply) -> (r: bool)
    ensures
        r == (reply@ is Value),
{
    match reply {
        StoreReply::Value(_) => true,
        _ => false,
    }
}

/// The question that records `url`, with `reference` as what is kept with
/// it, for `ttl_seconds` seconds.
pub open spec fn record_question(
    url: Seq<char>,
    reference: Seq<char>,
    ttl_seconds: u64,
) -> RequestView {
    RequestView::PutWithExpiry { key: seen_name(url), value: reference, ttl_seconds }
}

/// The question that records `url` for `ttl_seconds` seconds, with
/// `reference` as what is kept with it: the address of the message in which
/// it was seen.
pub fn store_message(url: &str, reference: &str, ttl_seconds: u64) -> (r: StoreRequest)
    ensures
        r@ == record_question(url@, reference@, ttl_seconds),
{
    StoreRequest::PutWithExpiry {
        key: seen_key(url),
        value: String::from_str(reference),
        ttl_seconds,
    }
}

/// Whether a link was on record, and the fault met while finding out, if
/// one was met.
#[derive(Clone, Copy, Debug, PartialEq, Eq, Structural)]
pub struct Sighting {
    pub seen: bool,
    pub fault: Option<Fault>,
}

/// What is remembered while a question to the store is open.
#[derive(Clone, Copy, Debug, PartialEq, Eq, Structural)]
pub enum SeenPhase {
    /// The link was looked up.
    AwaitingLookup,
    /// The link was sent to be recorded; `fault` is what the lookup met.
    AwaitingRecord { fault: Option<Fault> },
}

/// One step of checking a link: a question to the store, or the result.
#[derive(Debug)]
pub enum SeenStep {
    Ask { request: StoreRequest, phase: SeenPhase },
    Finished(Sighting),
}

/// A step as a mathematical value.
pub enum SeenStepView {
    Ask { request: RequestView, phase: SeenPhase },
    Finished(Sighting),
}

impl View for SeenStep {
    type V = SeenStepView;

    open spec fn view(&self) -> SeenStepView {
        match *self {
            SeenStep::Ask { request, phase } => SeenStepView::Ask { request: request@, phase },
            SeenStep::Finished(sighting) => SeenStepView::Finished(sighting),
        }
    }
}

/// The first step of checking `url`: it is looked up.
pub open spec fn first_check(url: Seq<char>) -> SeenStepView {
    SeenStepView::Ask {
        request: RequestView::Get { key: seen_name(url) },
        phase: SeenPhase::AwaitingLookup,
    }
}

/// The step that follows when the store has answered `reply` to the
/// question that was open in `phase`. A link on record is left as it is; a
/// link not on record is recorded; a lookup that fails counts as a link not
/// on record.
pub open spec fn next_check(
    url: Seq<char>,
    reference: Seq<char>,
    ttl_seconds: u64,
    phase: SeenPhase,
    reply: ReplyView,
) -> SeenStepView {
    match phase {
        SeenPhase::AwaitingLookup => match reply {
            ReplyView::Value(_) => SeenStepView::Finished(Sighting { seen: true, fault: None }),
            ReplyView::NotFound => SeenStepView::Ask {
                request: record_question(url, reference, ttl_seconds),
                phase: SeenPhase::AwaitingRecord { fault: None },
            },
            _ => SeenStepView::Ask {
                request: record_question(url, reference, ttl_seconds),
                phase: SeenPhase::AwaitingRecord { fault: Some(fault_of(reply)) },
            },
        },
        SeenPhase::AwaitingRecord { fault } => match reply {
            ReplyView::Done => SeenStepView::Finished(Sighting { seen: false, fault }),
            _ => SeenStepView::Finished(Sighting { seen: false, fault: Some(fault_of(reply)) }),
        },
    }
}

/// The first step of checking `url`.
pub fn begin_check(url: &str) -> (r: SeenStep)
    ensures
        r@ == first_check(url@),
{
    SeenStep::Ask { request: StoreRequest::Get { key: seen_key(url) }, phase: SeenPhase::AwaitingLookup }
}

/// The step that follows when the store has answered `reply` to the
/// question that was open in `phase`.
pub fn continue_check(
    url: &str,
    reference: &str,
    ttl_seconds: u64,
    phase: SeenPhase,
    reply: &StoreReply,
) -> (r: SeenStep)
    ensures
        r@ == next_check(url@, reference@, ttl_seconds, phase, reply@),
{
    match phase {
        SeenPhase::AwaitingLookup => {
            if url_exists(reply) {
                SeenStep::Finished(Sighting { seen: true, fault: None })
            } else {
                let fault = match reply {
                    StoreReply::NotFound => None,
                    other => Some(fault_in(other)),
                };
                SeenStep::Ask {
                    request: store_message(url, reference, ttl_seconds),
                    phase: SeenPhase::AwaitingRecord { fault },
                }
            }
        },
        SeenPhase::AwaitingRecord { fault } => match reply {
            StoreReply::Done => SeenStep::Finished(Sighting { seen: false, fault }),
            other => SeenStep::Finished(Sighting { seen: false, fault: Some(fault_in(other)) }),
        },
    }
}

/// Whether `url` was on record at the second `now`, and what the store
/// holds once it has been checked: a link on record stays as it is, with
/// the time it has left; a link not on record is recorded.
pub open spec fn recorded(
    state: StoreState,
    in_reach: bool,
    url: Seq<char>,
    reference: Seq<char>,
    ttl_seconds: u64,
    now: nat,
) -> (StoreState, Sighting) {
    if !in_reach {
        (state, Sighting { seen: false, fault: Some(Fault::StoreUnavailable) })
    } else if state.value_at(seen_name(url), now) is Some {
        (state, Sighting { seen: true, fault: None })
    } else {
        (
            state.after(record_question(url, reference, ttl_seconds), now),
            Sighting { seen: false, fault: None },
        )
    }
}

/// Checks `url` against a store held in memory, and records it if it was
/// not on record.
pub fn check_and_record(
    store: &mut MemoryStore,
    url: &str,
    reference: &str,
    ttl_seconds: u64,
    now: u64,
) -> (r: Sighting)
    ensures
        final(store).in_reach() == old(store).in_reach(),
        (final(store)@, r) == recorded(
            old(store)@,
            old(store).in_reach(),
            url@,
            reference@,
            ttl_seconds,
            now as nat,
        ),
{
    match begin_check(url) {
        SeenStep::Finished(_) => vstd::pervasive::unreached(),
        SeenStep::Ask { request, phase } => {
            let reply = store.serve(&request, now);
            match continue_check(url, reference, ttl_seconds, phase, &reply) {
                SeenStep::Finished(sighting) => sighting,
                SeenStep::Ask { request, phase } => {
                    let reply = store.serve(&request, now);
                    match continue_check(url, reference, ttl_seconds, phase, &reply) {
                        SeenStep::Finished(sighting) => sighting,
                        SeenStep::Ask { .. } => vstd::pervasive::unreached(),
                    }
                },
            }
        },
    }
}

/// A link that is not on record is reported as not seen, and recorded. From
/// then on, and for as long as its time has not run out, it is reported as
/// seen, and checking it changes nothing in the store. Once its time has run
/// out it is reported as not seen again.
pub proof fn lemma_seen_until_expiry(
    state: StoreState,
    url: Seq<char>,
    reference: Seq<char>,
    ttl_seconds: u64,
    now: nat,
    later: nat,
)
    requires
        state.value_at(seen_name(url), now) is None,
        now <= later,
    ensures
        ({
            let (first_state, first) = recorded(state, true, url, reference, ttl_seconds, now);
            let (second_state, second) = recorded(
                first_state,
                true,
                url,
                reference,
                ttl_seconds,
                later,
            );
            &&& !first.seen
            &&& first_state.value_at(seen_name(url), later) == if later < now + ttl_seconds {
                Some(reference)
            } else {
                None
            }
            &&& second.seen == (later < now + ttl_seconds)
            &&& second.seen ==> second_state == first_state
        }),
{
}

/// The record of links and the conversations share the store without
/// touching each other: checking a link changes no pointer and no list, and
/// resolving a message changes nothing that is on record for a link.
pub proof fn lemma_links_and_conversations_apart(
    state: StoreState,
    in_reach: bool,
    url: Seq<char>,
    reference: Seq<char>,
    ttl_seconds: u64,
    message: MessageView,
    bot_id: u64,
    now: nat,
)
    ensures
        ({
            let checked = recorded(state, in_reach, url, reference, ttl_seconds, now).0;
            &&& checked.lists == state.lists
            &&& forall|id: u64, at: nat| #[trigger]
                checked.value_at(pointer_name(id), at) == state.value_at(pointer_name(id), at)
        }),
        ({
            let resolved_state = resolved(state, in_reach, message, bot_id, now).0;
            forall|other: Seq<char>, at: nat| #[trigger]
                resolved_state.value_at(seen_name(other), at) == state.value_at(
                    seen_name(other),
                    at,
                )
        }),
{
    let checked = recorded(state, in_reach, url, reference, ttl_seconds, now).0;
    assert forall|id: u64, at: nat| #[trigger]
        checked.value_at(pointer_name(id), at) == state.value_at(pointer_name(id), at) by {
        lemma_names_disjoint(id, Seq::empty(), url);
    }
    let resolved_state = resolved(state, in_reach, message, bot_id, now).0;
    assert forall|other: Seq<char>, at: nat| #[trigger]
        resolved_state.value_at(seen_name(other), at) == state.value_at(seen_name(other), at) by {
        lemma_names_disjoint(message.id, Seq::empty(), other);
    }
}

/// What checking the links `urls` one after the other reports for each, and
/// what the store holds afterwards.
pub open spec fn recorded_all(
    state: StoreState,
    in_reach: bool,
    urls: Seq<Seq<char>>,
    reference: Seq<char>,
    ttl_seconds: u64,
    now: nat,
) -> (StoreState, Seq<Sighting>)
    decreases urls.len(),
{
    if urls.len() == 0 {
        (state, Seq::empty())
    } else {
        let (middle, earlier) = recorded_all(
            state,
            in_reach,
            urls.drop_last(),
            reference,
            ttl_seconds,
            now,
        );
        let (after, last) = recorded(middle, in_reach, urls.last(), reference, ttl_seconds, now);
        (after, earlier.push(last))
    }
}

/// Whether one of the links was on record.
pub open spec fn any_seen(sightings: Seq<Sighting>) -> bool {
    exists|i: int| 0 <= i < sightings.len() && (#[trigger] sightings[i]).seen
}

} // verus!

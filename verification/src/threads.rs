//! The conversation thread store: to which conversation a message belongs,
//! what was said in it so far, and how the message becomes part of it.
//!
//! A message that replies to nothing begins a conversation. A reply belongs
//! to the conversation of the message it replies to, which a pointer in the
//! store names. Where the pointer is missing, or the store cannot be reached
//! or holds what cannot be read, the reply begins a conversation of its own:
//! a shorter memory is better than no answer.
//!
//! Resolving takes several questions to the store, so it is written as a
//! sequence of steps: each step is either a question, with what to remember
//! until it is answered, or the result. Nothing here locks the store: two
//! replies to one message that are resolved at the same time both join the
//! conversation, and each may read a history that lacks the other.

use vstd::prelude::*;
use crate::conversation::{
    decode_turns, decoded_all, encode_turn, encoded, lemma_decoded_push, turn_for, turn_of,
    turn_views, Message, MessageView, Turn, TurnView,
};
use crate::keys::{
    lemma_minted_injective, lemma_pointer_name_injective, minted, pointer_key, pointer_name,
    thread_key, thread_name, ThreadKey,
};
use crate::store::{
    answered, fault_in, fault_of, Fault, MemoryStore, ReplyView, RequestView, StoreReply,
    StoreRequest, StoreState,
};

verus! {

/// How a message came to its conversation.
#[derive(Clone, Copy, Debug, PartialEq, Eq, Structural)]
pub enum Origin {
    /// The message replies to nothing and begins a conversation.
    Fresh,
    /// The message joined the conversation of the message it replies to.
    Continued,
    /// The message replies to one that the store knows nothing of, and
    /// begins a conversation.
    ParentUntracked,
    /// The store failed or held what could not be read; the message begins
    /// a conversation.
    Degraded(Fault),
}

/// The conversation of a message: its key, and the turns that came before
/// the message.
#[derive(Debug)]
pub struct Resolution {
    pub key: ThreadKey,
    pub history: Vec<Turn>,
    pub origin: Origin,
}

/// A resolution as a mathematical value.
pub struct ResolutionView {
    pub key: Seq<char>,
    pub history: Seq<TurnView>,
    pub origin: Origin,
}

impl View for Resolution {
    type V = ResolutionView;

    open spec fn view(&self) -> ResolutionView {
        ResolutionView { key: self.key@, history: turn_views(self.history@), origin: self.origin }
    }
}

/// What is remembered while a question to the store is open.
#[derive(Debug)]
pub enum ResolvePhase {
    /// The pointer of the parent was asked for.
    AwaitingPointer,
    /// The turns of the parent's conversation were asked for.
    AwaitingHistory { key: ThreadKey },
    /// The message's turn was sent to be appended.
    AwaitingAppend { key: ThreadKey, history: Vec<Turn> },
    /// The message's pointer to the parent's conversation was sent.
    AwaitingLink { key: ThreadKey, history: Vec<Turn> },
    /// The message's pointer to a conversation of its own was sent.
    AwaitingRootLink { origin: Origin },
}

/// A phase as a mathematical value.
pub enum PhaseView {
    AwaitingPointer,
    AwaitingHistory { key: Seq<char> },
    AwaitingAppend { key: Seq<char>, history: Seq<TurnView> },
    AwaitingLink { key: Seq<char>, history: Seq<TurnView> },
    AwaitingRootLink { origin: Origin },
}

impl View for ResolvePhase {
    type V = PhaseView;

    open spec fn view(&self) -> PhaseView {
        match *self {
            ResolvePhase::AwaitingPointer => PhaseView::AwaitingPointer,
            ResolvePhase::AwaitingHistory { key } => PhaseView::AwaitingHistory { key: key@ },
            ResolvePhase::AwaitingAppend { key, history } => PhaseView::AwaitingAppend {
                key: key@,
                history: turn_views(history@),
            },
            ResolvePhase::AwaitingLink { key, history } => PhaseView::AwaitingLink {
                key: key@,
                history: turn_views(history@),
            },
            ResolvePhase::AwaitingRootLink { origin } => PhaseView::AwaitingRootLink { origin },
        }
    }
}

/// One step of resolving: a question to the store, or the result.
#[derive(Debug)]
pub enum ResolveStep {
    Ask { request: StoreRequest, phase: ResolvePhase },
    Finished(Resolution),
}

/// A step as a mathematical value.
pub enum StepView {
    Ask { request: RequestView, phase: PhaseView },
    Finished(ResolutionView),
}

impl View for ResolveStep {
    type V = StepView;

    open spec fn view(&self) -> StepView {
        match *self {
            ResolveStep::Ask { request, phase } => StepView::Ask {
                request: request@,
                phase: phase@,
            },
            ResolveStep::Finished(resolution) => StepView::Finished(resolution@),
        }
    }
}

/// The step that begins a conversation with `message`: its pointer is sent
/// to the store, naming the key made from the message's own number.
pub open spec fn root_step(message: MessageView, origin: Origin) -> StepView {
    StepView::Ask {
        request: RequestView::Put { key: pointer_name(message.id), value: minted(message.id) },
        phase: PhaseView::AwaitingRootLink { origin },
    }
}

/// The conversation that `message` begins.
pub open spec fn root_resolution(message: MessageView, origin: Origin) -> ResolutionView {
    ResolutionView { key: minted(message.id), history: Seq::empty(), origin }
}

/// The first step of resolving `message`.
pub open spec fn first_step(message: MessageView) -> StepView {
    match message.parent {
        None => root_step(message, Origin::Fresh),
        Some(parent) => StepView::Ask {
            request: RequestView::Get { key: pointer_name(parent) },
            phase: PhaseView::AwaitingPointer,
        },
    }
}

/// The step that follows when the store has answered `reply` to the
/// question that was open in `phase`.
pub open spec fn next_step(
    message: MessageView,
    bot_id: u64,
    phase: PhaseView,
    reply: ReplyView,
) -> StepView {
    match phase {
        PhaseView::AwaitingPointer => match reply {
            ReplyView::Value(key) => StepView::Ask {
                request: RequestView::ReadList { key: thread_name(key) },
                phase: PhaseView::AwaitingHistory { key },
            },
            ReplyView::NotFound => root_step(message, Origin::ParentUntracked),
            _ => root_step(message, Origin::Degraded(fault_of(reply))),
        },
        PhaseView::AwaitingHistory { key } => match reply {
            ReplyView::List(stored) => match decoded_all(stored) {
                Some(history) => StepView::Ask {
                    request: RequestView::AppendToList {
                        key: thread_name(key),
                        value: encoded(turn_of(message, bot_id)),
                    },
                    phase: PhaseView::AwaitingAppend { key, history },
                },
                None => root_step(message, Origin::Degraded(Fault::MalformedInput)),
            },
            _ => root_step(message, Origin::Degraded(fault_of(reply))),
        },
        PhaseView::AwaitingAppend { key, history } => match reply {
            ReplyView::Done => StepView::Ask {
                request: RequestView::Put { key: pointer_name(message.id), value: key },
                phase: PhaseView::AwaitingLink { key, history },
            },
            _ => root_step(message, Origin::Degraded(fault_of(reply))),
        },
        PhaseView::AwaitingLink { key, history } => match reply {
            ReplyView::Done => StepView::Finished(
                ResolutionView { key, history, origin: Origin::Continued },
            ),
            _ => root_step(message, Origin::Degraded(fault_of(reply))),
        },
        PhaseView::AwaitingRootLink { origin } => match reply {
            ReplyView::Done => StepView::Finished(root_resolution(message, origin)),
            _ => StepView::Finished(root_resolution(message, Origin::Degraded(fault_of(reply)))),
        },
    }
}

/// How many questions are open or may still follow in a phase, at most.
pub open spec fn questions_left(phase: PhaseView) -> nat {
    match phase {
        PhaseView::AwaitingPointer => 5,
        PhaseView::AwaitingHistory { .. } => 4,
        PhaseView::AwaitingAppend { .. } => 3,
        PhaseView::AwaitingLink { .. } => 2,
        PhaseView::AwaitingRootLink { .. } => 1,
    }
}

/// How many questions may still follow a step, at most.
pub open spec fn steps_left(step: StepView) -> nat {
    match step {
        StepView::Finished(_) => 0,
        StepView::Ask { phase, .. } => questions_left(phase),
    }
}

/// Every answer brings the result nearer: resolving ends after five
/// questions at most.
pub proof fn lemma_progress(
    message: MessageView,
    bot_id: u64,
    request: RequestView,
    phase: PhaseView,
    reply: ReplyView,
)
    ensures
        steps_left(next_step(message, bot_id, phase, reply)) < steps_left(
            (StepView::Ask { request, phase }),
        ),
{
}

/// The step that begins a conversation with `message`.
fn begin_root(message: &Message, origin: Origin) -> (r: ResolveStep)
    ensures
        r@ == root_step(message@, origin),
{
    let key = ThreadKey::mint(message.id);
    ResolveStep::Ask {
        request: StoreRequest::Put { key: pointer_key(message.id), value: key.text() },
        phase: ResolvePhase::AwaitingRootLink { origin },
    }
}

/// The conversation that `message` begins.
fn finish_root(message: &Message, origin: Origin) -> (r: ResolveStep)
    ensures
        r@ == StepView::Finished(root_resolution(message@, origin)),
{
    let history: Vec<Turn> = Vec::new();
    assert(turn_views(history@) =~= Seq::<TurnView>::empty());
    ResolveStep::Finished(Resolution { key: ThreadKey::mint(message.id), history, origin })
}

/// The first step of resolving `message`.
pub fn begin_resolve(message: &Message) -> (r: ResolveStep)
    ensures
        r@ == first_step(message@),
{
    match message.parent {
        None => begin_root(message, Origin::Fresh),
        Some(parent) => ResolveStep::Ask {
            request: StoreRequest::Get { key: pointer_key(parent) },
            phase: ResolvePhase::AwaitingPointer,
        },
    }
}

/// The step that follows when the store has answered `reply` to the
/// question that was open in `phase`.
pub fn continue_resolve(
    message: &Message,
    bot_id: u64,
    phase: ResolvePhase,
    reply: StoreReply,
) -> (r: ResolveStep)
    ensures
        r@ == next_step(message@, bot_id, phase@, reply@),
{
    match phase {
        ResolvePhase::AwaitingPointer => match reply {
            StoreReply::Value(text) => {
                let key = ThreadKey::from_text(text);
                ResolveStep::Ask {
                    request: StoreRequest::ReadList { key: thread_key(&key) },
                    phase: ResolvePhase::AwaitingHistory { key },
                }
            },
            StoreReply::NotFound => begin_root(message, Origin::ParentUntracked),
            other => begin_root(message, Origin::Degraded(fault_in(&other))),
        },
        ResolvePhase::AwaitingHistory { key } => match reply {
            StoreReply::List(stored) => match decode_turns(&stored) {
                Some(history) => {
                    let turn = turn_for(message, bot_id);
                    ResolveStep::Ask {
                        request: StoreRequest::AppendToList {
                            key: thread_key(&key),
                            value: encode_turn(&turn),
                        },
                        phase: ResolvePhase::AwaitingAppend { key, history },
                    }
                },
                None => begin_root(message, Origin::Degraded(Fault::MalformedInput)),
            },
            other => begin_root(message, Origin::Degraded(fault_in(&other))),
        },
        ResolvePhase::AwaitingAppend { key, history } => match reply {
            StoreReply::Done => ResolveStep::Ask {
                request: StoreRequest::Put { key: pointer_key(message.id), value: key.text() },
                phase: ResolvePhase::AwaitingLink { key, history },
            },
            other => begin_root(message, Origin::Degraded(fault_in(&other))),
        },
        ResolvePhase::AwaitingLink { key, history } => match reply {
            StoreReply::Done => ResolveStep::Finished(
                Resolution { key, history, origin: Origin::Continued },
            ),
            other => begin_root(message, Origin::Degraded(fault_in(&other))),
        },
        ResolvePhase::AwaitingRootLink { origin } => match reply {
            StoreReply::Done => finish_root(message, origin),
            other => finish_root(message, Origin::Degraded(fault_in(&other))),
        },
    }
}

/// Where resolving ends, and what the store then holds, when the steps from
/// `step` on are put to a store that holds `state`. `fuel` bounds the number
/// of questions; `steps_left` of the step is always enough.
pub open spec fn run(
    state: StoreState,
    in_reach: bool,
    message: MessageView,
    bot_id: u64,
    now: nat,
    step: StepView,
    fuel: nat,
) -> (StoreState, ResolutionView)
    decreases fuel,
{
    match step {
        StepView::Finished(resolution) => (state, resolution),
        StepView::Ask { request, phase } => if fuel == 0 {
            (state, root_resolution(message, Origin::Degraded(Fault::StoreUnavailable)))
        } else {
            let (next_state, reply) = answered(state, in_reach, request, now);
            run(
                next_state,
                in_reach,
                message,
                bot_id,
                now,
                next_step(message, bot_id, phase, reply),
                (fuel - 1) as nat,
            )
        },
    }
}

/// More fuel than the steps need changes nothing.
pub proof fn lemma_run_fuel(
    state: StoreState,
    in_reach: bool,
    message: MessageView,
    bot_id: u64,
    now: nat,
    step: StepView,
    fuel: nat,
)
    requires
        fuel >= steps_left(step),
    ensures
        run(state, in_reach, message, bot_id, now, step, fuel) == run(
            state,
            in_reach,
            message,
            bot_id,
            now,
            step,
            steps_left(step),
        ),
    decreases fuel,
{
    match step {
        StepView::Finished(_) => {},
        StepView::Ask { request, phase } => {
            let (next_state, reply) = answered(state, in_reach, request, now);
            let next = next_step(message, bot_id, phase, reply);
            lemma_progress(message, bot_id, request, phase, reply);
            lemma_run_fuel(next_state, in_reach, message, bot_id, now, next, (fuel - 1) as nat);
            lemma_run_fuel(
                next_state,
                in_reach,
                message,
                bot_id,
                now,
                next,
                (steps_left(step) - 1) as nat,
            );
        },
    }
}

/// What the store holds once `message` has been given a pointer to a
/// conversation of its own.
pub open spec fn rooted(state: StoreState, message: MessageView, now: nat) -> StoreState {
    state.after(
        RequestView::Put { key: pointer_name(message.id), value: minted(message.id) },
        now,
    )
}

/// What the store holds once `message` has joined the conversation `key`:
/// its turn stands at the end of the conversation's turns, and its pointer
/// names the conversation.
pub open spec fn joined_thread(
    state: StoreState,
    message: MessageView,
    bot_id: u64,
    key: Seq<char>,
    now: nat,
) -> StoreState {
    state.after(
        RequestView::AppendToList {
            key: thread_name(key),
            value: encoded(turn_of(message, bot_id)),
        },
        now,
    ).after(RequestView::Put { key: pointer_name(message.id), value: key }, now)
}

/// The conversation of `message`, and what the store holds once the message
/// is part of it, given what the store held before.
///
/// With the store out of reach nothing is written and the message begins a
/// conversation. A message that replies to nothing begins one too, and so
/// does a reply whose parent has no pointer, or whose parent's conversation
/// cannot be read. Otherwise the message joins its parent's conversation,
/// and the history is what the store held before the message's own turn.
///
/// It is the parent's pointer that leads to the conversation. Where the
/// store has dropped the pointer, the reply begins a conversation under a
/// key of its own. Where the store has dropped the turns but kept the
/// pointer, the reply joins under the old key, with the empty history that
/// the store now holds.
pub open spec fn resolved(
    state: StoreState,
    in_reach: bool,
    message: MessageView,
    bot_id: u64,
    now: nat,
) -> (StoreState, ResolutionView) {
    if !in_reach {
        (state, root_resolution(message, Origin::Degraded(Fault::StoreUnavailable)))
    } else {
        match message.parent {
            None => (rooted(state, message, now), root_resolution(message, Origin::Fresh)),
            Some(parent) => match state.value_at(pointer_name(parent), now) {
                None => (
                    rooted(state, message, now),
                    root_resolution(message, Origin::ParentUntracked),
                ),
                Some(key) => match decoded_all(state.list_at(thread_name(key))) {
                    None => (
                        rooted(state, message, now),
                        root_resolution(message, Origin::Degraded(Fault::MalformedInput)),
                    ),
                    Some(history) => (
                        joined_thread(state, message, bot_id, key, now),
                        ResolutionView { key, history, origin: Origin::Continued },
                    ),
                },
            },
        }
    }
}

/// Putting the steps of resolving to a store, one after the other, ends as
/// `resolved` says.
pub proof fn lemma_run_resolves(
    state: StoreState,
    in_reach: bool,
    message: MessageView,
    bot_id: u64,
    now: nat,
)
    ensures
        run(
            state,
            in_reach,
            message,
            bot_id,
            now,
            first_step(message),
            steps_left(first_step(message)),
        ) == resolved(state, in_reach, message, bot_id, now),
{
    reveal_with_fuel(run, 6);
}

/// Resolves `message` against a store held in memory: finds its
/// conversation and makes the message part of it.
pub fn resolve(store: &mut MemoryStore, message: &Message, bot_id: u64, now: u64) -> (r: Resolution)
    ensures
        final(store).in_reach() == old(store).in_reach(),
        (final(store)@, r@) == resolved(
            old(store)@,
            old(store).in_reach(),
            message@,
            bot_id,
            now as nat,
        ),
{
    let ghost in_reach = store.in_reach();
    let ghost goal = run(
        store@,
        in_reach,
        message@,
        bot_id,
        now as nat,
        first_step(message@),
        steps_left(first_step(message@)),
    );
    proof {
        lemma_run_resolves(store@, in_reach, message@, bot_id, now as nat);
    }
    let mut step = begin_resolve(message);
    loop
        invariant
            store.in_reach() == in_reach,
            in_reach == old(store).in_reach(),
            goal == resolved(old(store)@, in_reach, message@, bot_id, now as nat),
            run(store@, in_reach, message@, bot_id, now as nat, step@, steps_left(step@)) == goal,
        decreases steps_left(step@),
    {
        match step {
            ResolveStep::Finished(resolution) => {
                return resolution;
            },
            ResolveStep::Ask { request, phase } => {
                let ghost before = store@;
                let reply = store.serve(&request, now);
                proof {
                    let next = next_step(message@, bot_id, phase@, reply@);
                    lemma_progress(message@, bot_id, request@, phase@, reply@);
                    lemma_run_fuel(
                        store@,
                        in_reach,
                        message@,
                        bot_id,
                        now as nat,
                        next,
                        (steps_left((StepView::Ask { request: request@, phase: phase@ })) - 1) as nat,
                    );
                }
                step = continue_resolve(message, bot_id, phase, reply);
            },
        }
    }
}

/// A message that replies to nothing is given the key made from its own
/// number, which no other message is given, and an empty history. Its
/// pointer then names that key, at whatever time it is read, and no list in
/// the store has changed: the conversation's turns are empty unless the
/// store held turns under that key before.
pub proof fn lemma_root_begins_conversation(
    state: StoreState,
    message: MessageView,
    bot_id: u64,
    now: nat,
)
    requires
        message.parent is None,
    ensures
        ({
            let (after, resolution) = resolved(state, true, message, bot_id, now);
            &&& resolution.key == minted(message.id)
            &&& resolution.history == Seq::<TurnView>::empty()
            &&& resolution.origin == Origin::Fresh
            &&& forall|later: nat| #[trigger]
                after.value_at(pointer_name(message.id), later) == Some(resolution.key)
            &&& after.lists == state.lists
            &&& forall|other: u64| other != message.id ==> #[trigger] minted(other) != resolution.key
        }),
{
    assert forall|other: u64| other != message.id implies #[trigger] minted(other) != minted(
        message.id,
    ) by {
        if minted(other) == minted(message.id) {
            lemma_minted_injective(other, message.id);
        }
    }
}

/// A reply whose parent has a pointer to the conversation `key`, the turns
/// of which can be read, is given `key` and the turns as they were before.
/// Afterwards its own pointer names `key` too, at whatever time it is read,
/// and the conversation holds one turn more: the reply's, at the end.
pub proof fn lemma_reply_continues_conversation(
    state: StoreState,
    message: MessageView,
    bot_id: u64,
    now: nat,
    parent: u64,
    key: Seq<char>,
)
    requires
        message.parent == Some(parent),
        state.value_at(pointer_name(parent), now) == Some(key),
        decoded_all(state.list_at(thread_name(key))) is Some,
    ensures
        ({
            let (after, resolution) = resolved(state, true, message, bot_id, now);
            let before = state.list_at(thread_name(key));
            &&& resolution.key == key
            &&& resolution.origin == Origin::Continued
            &&& Some(resolution.history) == decoded_all(before)
            &&& forall|later: nat| #[trigger]
                after.value_at(pointer_name(message.id), later) == Some(key)
            &&& after.list_at(thread_name(key)) == before.push(encoded(turn_of(message, bot_id)))
            &&& after.list_at(thread_name(key)).len() == before.len() + 1
            &&& decoded_all(after.list_at(thread_name(key))) == Some(
                resolution.history.push(turn_of(message, bot_id)),
            )
        }),
{
    let before = state.list_at(thread_name(key));
    lemma_decoded_push(before, decoded_all(before).unwrap(), turn_of(message, bot_id));
}

/// A reply whose parent has no pointer, or that is resolved while the store
/// is out of reach, is given the key and the history that it would be given
/// if it replied to nothing, and the store then holds the same.
pub proof fn lemma_miss_resolves_as_root(
    state: StoreState,
    in_reach: bool,
    message: MessageView,
    bot_id: u64,
    now: nat,
)
    requires
        message.parent is Some,
        !in_reach || state.value_at(pointer_name(message.parent.unwrap()), now) is None,
    ensures
        ({
            let alone = MessageView { parent: None, ..message };
            let (after, resolution) = resolved(state, in_reach, message, bot_id, now);
            let (after_alone, resolution_alone) = resolved(state, in_reach, alone, bot_id, now);
            &&& after == after_alone
            &&& resolution.key == resolution_alone.key
            &&& resolution.key == minted(message.id)
            &&& resolution.history == resolution_alone.history
            &&& resolution.history == Seq::<TurnView>::empty()
            &&& resolution.origin != Origin::Continued
        }),
{
}

/// Whenever the store fails to answer, at whatever point of resolving, the
/// message begins a conversation of its own: what follows is the writing of
/// its pointer to the key made from its own number, or, where that was the
/// question that failed, the result with that key and an empty history. The
/// result is marked as degraded, so that it can be told from a message that
/// replies to nothing.
pub proof fn lemma_failure_degrades_to_root(message: MessageView, bot_id: u64, phase: PhaseView)
    ensures
        ({
            let next = next_step(message, bot_id, phase, ReplyView::Unavailable);
            let degraded = Origin::Degraded(Fault::StoreUnavailable);
            if phase is AwaitingRootLink {
                next == StepView::Finished(root_resolution(message, degraded))
            } else {
                next == root_step(message, degraded)
            }
        }),
        forall|state: StoreState, in_reach: bool, now: nat, origin: Origin|
            ({
                let end = #[trigger] run(
                    state,
                    in_reach,
                    message,
                    bot_id,
                    now,
                    root_step(message, origin),
                    1,
                );
                end.1.key == minted(message.id) && end.1.history == Seq::<TurnView>::empty()
            }),
{
    reveal_with_fuel(run, 2);
}

/// Resolving a message never takes anything away. Of the single texts in
/// the store it writes the message's own pointer and no other; every list
/// keeps what it held, in the same order, and at most gains entries at its
/// end.
pub proof fn lemma_resolve_only_adds(
    state: StoreState,
    in_reach: bool,
    message: MessageView,
    bot_id: u64,
    now: nat,
)
    ensures
        ({
            let after = resolved(state, in_reach, message, bot_id, now).0;
            &&& forall|key: Seq<char>|
                key != pointer_name(message.id) ==> (#[trigger] after.values.contains_key(key)
                    == state.values.contains_key(key)) && (state.values.contains_key(key)
                    ==> after.values[key] == state.values[key])
            &&& forall|key: Seq<char>| #[trigger]
                state.list_at(key).is_prefix_of(after.list_at(key))
        }),
{
    let after = resolved(state, in_reach, message, bot_id, now).0;
    assert forall|key: Seq<char>| #[trigger]
        state.list_at(key).is_prefix_of(after.list_at(key)) by {
        let before = state.list_at(key);
        let later = after.list_at(key);
        assert(later == before || later == before.push(encoded(turn_of(message, bot_id))));
        assert(before =~= later.subrange(0, before.len() as int));
    }
}

/// Whatever way a message comes to its conversation, once it is resolved
/// against a store in reach its pointer names the key that was returned for
/// it, at whatever time the pointer is read: the core sets no time after
/// which a pointer is forgotten.
pub proof fn lemma_resolve_leaves_pointer(
    state: StoreState,
    message: MessageView,
    bot_id: u64,
    now: nat,
)
    ensures
        ({
            let (after, resolution) = resolved(state, true, message, bot_id, now);
            forall|later: nat| #[trigger]
                after.value_at(pointer_name(message.id), later) == Some(resolution.key)
        }),
{
}

/// Two replies to one message, resolved one after the other, join the same
/// conversation: both are given the parent's key, both turns are appended
/// in the order of resolving, and the second is given a history that ends
/// with the first's turn.
pub proof fn lemma_siblings_share_conversation(
    state: StoreState,
    first: MessageView,
    second: MessageView,
    bot_id: u64,
    now: nat,
    parent: u64,
    key: Seq<char>,
)
    requires
        first.parent == Some(parent),
        second.parent == Some(parent),
        state.value_at(pointer_name(parent), now) == Some(key),
        decoded_all(state.list_at(thread_name(key))) is Some,
    ensures
        ({
            let before = decoded_all(state.list_at(thread_name(key))).unwrap();
            let (middle, earlier) = resolved(state, true, first, bot_id, now);
            let (after, later) = resolved(middle, true, second, bot_id, now);
            &&& earlier.key == key
            &&& later.key == key
            &&& earlier.history == before
            &&& later.history == before.push(turn_of(first, bot_id))
            &&& decoded_all(after.list_at(thread_name(key))) == Some(
                before.push(turn_of(first, bot_id)).push(turn_of(second, bot_id)),
            )
        }),
{
    let stored = state.list_at(thread_name(key));
    let before = decoded_all(stored).unwrap();
    let (middle, earlier) = resolved(state, true, first, bot_id, now);
    lemma_decoded_push(stored, before, turn_of(first, bot_id));
    if pointer_name(first.id) == pointer_name(parent) {
        lemma_pointer_name_injective(first.id, parent);
    }
    assert(middle.value_at(pointer_name(parent), now) == Some(key));
    lemma_decoded_push(
        middle.list_at(thread_name(key)),
        before.push(turn_of(first, bot_id)),
        turn_of(second, bot_id),
    );
}

/// The turns of the conversation `key` as the store holds them, if they can
/// be read.
pub open spec fn history_in(state: StoreState, key: Seq<char>) -> Option<Seq<TurnView>> {
    decoded_all(state.list_at(thread_name(key)))
}

/// The question that appends `turn` to the conversation `key`.
pub open spec fn append_question(key: Seq<char>, turn: TurnView) -> RequestView {
    RequestView::AppendToList { key: thread_name(key), value: encoded(turn) }
}

/// What the store holds once `turns` have been appended to the conversation
/// `key`, one after the other.
pub open spec fn appended(
    state: StoreState,
    key: Seq<char>,
    turns: Seq<TurnView>,
    now: nat,
) -> StoreState
    decreases turns.len(),
{
    if turns.len() == 0 {
        state
    } else {
        appended(state, key, turns.drop_last(), now).after(append_question(key, turns.last()), now)
    }
}

/// Turns that are appended to a conversation are read back as they were
/// appended: after what the conversation held before, in the order of
/// appending, each with its role and its content unchanged. Appended to an
/// empty conversation, they are all that is read back.
pub proof fn lemma_appended_turns_read_back(
    state: StoreState,
    key: Seq<char>,
    turns: Seq<TurnView>,
    now: nat,
)
    requires
        history_in(state, key) is Some,
    ensures
        history_in(appended(state, key, turns, now), key) == Some(
            history_in(state, key).unwrap() + turns,
        ),
        state.list_at(thread_name(key)).len() == 0 ==> history_in(
            appended(state, key, turns, now),
            key,
        ) == Some(turns),
    decreases turns.len(),
{
    let before = history_in(state, key).unwrap();
    if turns.len() == 0 {
        assert(before + turns =~= before);
    } else {
        let shorter = turns.drop_last();
        lemma_appended_turns_read_back(state, key, shorter, now);
        let middle = appended(state, key, shorter, now);
        lemma_decoded_push(middle.list_at(thread_name(key)), before + shorter, turns.last());
        assert((before + shorter).push(turns.last()) =~= before + turns);
    }
    if state.list_at(thread_name(key)).len() == 0 {
        assert(before =~= Seq::<TurnView>::empty());
        assert(before + turns =~= turns);
    }
}

/// The question that appends `turn` to the conversation `key`.
pub fn append_request(key: &ThreadKey, turn: &Turn) -> (r: StoreRequest)
    ensures
        r@ == append_question(key@, turn@),
{
    StoreRequest::AppendToList { key: thread_key(key), value: encode_turn(turn) }
}

/// The question that reads the turns of the conversation `key`.
pub fn history_request(key: &ThreadKey) -> (r: StoreRequest)
    ensures
        r@ == (RequestView::ReadList { key: thread_name(key@) }),
{
    StoreRequest::ReadList { key: thread_key(key) }
}

/// The turns that the store's answer to `history_request` holds.
pub open spec fn history_answer(reply: ReplyView) -> Result<Seq<TurnView>, Fault> {
    match reply {
        ReplyView::List(stored) => match decoded_all(stored) {
            Some(turns) => Ok(turns),
            None => Err(Fault::MalformedInput),
        },
        _ => Err(fault_of(reply)),
    }
}

/// Reads the turns out of the store's answer to `history_request`.
pub fn history_from_reply(reply: &StoreReply) -> (r: Result<Vec<Turn>, Fault>)
    ensures
        match r {
            Ok(turns) => history_answer(reply@) == Ok::<Seq<TurnView>, Fault>(turn_views(turns@)),
            Err(fault) => history_answer(reply@) == Err::<Seq<TurnView>, Fault>(fault),
        },
{
    match reply {
        StoreReply::List(stored) => match decode_turns(stored) {
            Some(turns) => Ok(turns),
            None => Err(Fault::MalformedInput),
        },
        other => Err(fault_in(other)),
    }
}

/// Appends `turn` to the conversation `key` in a store held in memory.
pub fn append_turn(
    store: &mut MemoryStore,
    key: &ThreadKey,
    turn: &Turn,
    now: u64,
) -> (r: Result<(), Fault>)
    ensures
        final(store).in_reach() == old(store).in_reach(),
        old(store).in_reach() ==> r is Ok && final(store)@ == old(store)@.after(
            append_question(key@, turn@),
            now as nat,
        ),
        !old(store).in_reach() ==> r == Err::<(), Fault>(Fault::StoreUnavailable) && final(store)@
            == old(store)@,
{
    let request = append_request(key, turn);
    match store.serve(&request, now) {
        StoreReply::Done => Ok(()),
        _ => Err(Fault::StoreUnavailable),
    }
}

/// Reads the turns of the conversation `key` from a store held in memory.
pub fn read_history(
    store: &mut MemoryStore,
    key: &ThreadKey,
    now: u64,
) -> (r: Result<Vec<Turn>, Fault>)
    ensures
        final(store).in_reach() == old(store).in_reach(),
        final(store)@ == old(store)@,
        match r {
            Ok(turns) => old(store).in_reach() && history_in(old(store)@, key@) == Some(
                turn_views(turns@),
            ),
            Err(fault) => if old(store).in_reach() {
                fault == Fault::MalformedInput && history_in(old(store)@, key@) is None
            } else {
                fault == Fault::StoreUnavailable
            },
        },
{
    let request = history_request(key);
    let reply = store.serve(&request, now);
    history_from_reply(&reply)
}

} // verus!

//! What is done for a message that is meant for the bot.
//!
//! The message is resolved to its conversation; the language model is asked
//! with the turns so far and the message's text; its answer is posted as a
//! reply; the reply is resolved in turn, so that it joins the conversation
//! and a later reply to it finds the way back. Where the model fails, the
//! user is told so and nothing more is written to the store.
//!
//! The work alternates between decisions taken here and calls made
//! elsewhere: to the store, to the model, to the chat system. So it is
//! written as a sequence of moves. Each move names a call to make and the
//! stage to come back to with its outcome, or says that the work is done.

use vstd::prelude::*;
use crate::conversation::{
    decoded_all, lemma_decoded_push, turn_for, turn_of, turn_views, Message, MessageView, Role,
    Turn, TurnView,
};
use crate::keys::{lemma_pointer_name_injective, pointer_name, thread_name};
use crate::store::{
    answered, Fault, MemoryStore, ReplyView, RequestView, StoreReply, StoreRequest, StoreState,
};
use crate::text::joined;
use crate::threads::{
    append_question, append_request, append_turn, begin_resolve, continue_resolve, first_step,
    history_in, lemma_progress, lemma_run_fuel, lemma_run_resolves, next_step, questions_left,
    resolve, resolved, run, steps_left, Origin, PhaseView, Resolution, ResolvePhase, ResolveStep,
    StepView,
};

verus! {

/// A call to make for the message.
#[derive(Debug)]
pub enum Action {
    /// Put a question to the store.
    Store(StoreRequest),
    /// Ask the language model, with the turns so far and the new text.
    /// `origin` says how the message came to its conversation, for the
    /// record: a history cut short by a failure can be told from that of a
    /// message which began a conversation.
    AskModel { history: Vec<Turn>, text: String, origin: Origin },
    /// Post the model's answer as a reply to the message.
    PostReply { text: String },
    /// Tell the user that the model could not answer.
    PostError { text: String },
}

/// An action as a mathematical value.
pub enum ActionView {
    Store(RequestView),
    AskModel { history: Seq<TurnView>, text: Seq<char>, origin: Origin },
    PostReply { text: Seq<char> },
    PostError { text: Seq<char> },
}

impl View for Action {
    type V = ActionView;

    open spec fn view(&self) -> ActionView {
        match *self {
            Action::Store(request) => ActionView::Store(request@),
            Action::AskModel { history, text, origin } => ActionView::AskModel {
                history: turn_views(history@),
                text: text@,
                origin,
            },
            Action::PostReply { text } => ActionView::PostReply { text: text@ },
            Action::PostError { text } => ActionView::PostError { text: text@ },
        }
    }
}

/// The outcome of a call.
#[derive(Debug)]
pub enum Event {
    /// The store's answer.
    Store(StoreReply),
    /// The model's answer, or why there is none.
    Model(Result<String, String>),
    /// The number of the message that was posted, or nothing if posting
    /// failed.
    Posted(Option<u64>),
}

/// An event as a mathematical value.
pub enum EventView {
    Store(ReplyView),
    Model(Result<Seq<char>, Seq<char>>),
    Posted(Option<u64>),
}

impl View for Event {
    type V = EventView;

    open spec fn view(&self) -> EventView {
        match *self {
            Event::Store(reply) => EventView::Store(reply@),
            Event::Model(answer) => EventView::Model(
                match answer {
                    Ok(text) => Ok(text@),
                    Err(reason) => Err(reason@),
                },
            ),
            Event::Posted(id) => EventView::Posted(id),
        }
    }
}

/// Where the work on a message stands while a call is under way.
#[derive(Debug)]
pub enum Stage {
    /// The message is being resolved.
    ResolvingUser(ResolvePhase),
    /// The message began a conversation; its turn was sent to be recorded.
    RecordingUser { origin: Origin },
    /// The model was asked.
    AskingModel,
    /// The model's answer was sent to be posted.
    Replying { text: String },
    /// The bot's reply is being resolved.
    ResolvingReply { reply: Message, phase: ResolvePhase },
    /// The bot's reply began a conversation; its turn was sent to be
    /// recorded.
    RecordingReply { origin: Origin },
    /// The user was sent word that the model failed.
    ReportingFailure,
}

/// A stage as a mathematical value.
pub enum StageView {
    ResolvingUser(PhaseView),
    RecordingUser { origin: Origin },
    AskingModel,
    Replying { text: Seq<char> },
    ResolvingReply { reply: MessageView, phase: PhaseView },
    RecordingReply { origin: Origin },
    ReportingFailure,
}

impl View for Stage {
    type V = StageView;

    open spec fn view(&self) -> StageView {
        match *self {
            Stage::ResolvingUser(phase) => StageView::ResolvingUser(phase@),
            Stage::RecordingUser { origin } => StageView::RecordingUser { origin },
            Stage::AskingModel => StageView::AskingModel,
            Stage::Replying { text } => StageView::Replying { text: text@ },
            Stage::ResolvingReply { reply, phase } => StageView::ResolvingReply {
                reply: reply@,
                phase: phase@,
            },
            Stage::RecordingReply { origin } => StageView::RecordingReply { origin },
            Stage::ReportingFailure => StageView::ReportingFailure,
        }
    }
}

/// How the work on a message ended.
#[derive(Clone, Copy, Debug, PartialEq, Eq, Structural)]
pub enum Outcome {
    /// The model's answer was posted and recorded. `joined` says how the
    /// bot's reply came to its conversation: `Continued` where it joined
    /// that of the message it answers.
    Answered { joined: Origin },
    /// The message was written by the bot itself and was left alone.
    Ignored,
    /// The work was given up: the model failed, the answer could not be
    /// posted, or an outcome came back that no call of the stage gives.
    Failed(Fault),
}

/// One move of the work: a call to make and the stage to come back to, or
/// the end.
#[derive(Debug)]
pub enum Move {
    Do { action: Action, stage: Stage },
    Finished(Outcome),
}

/// A move as a mathematical value.
pub enum MoveView {
    Do { action: ActionView, stage: StageView },
    Finished(Outcome),
}

impl View for Move {
    type V = MoveView;

    open spec fn view(&self) -> MoveView {
        match *self {
            Move::Do { action, stage } => MoveView::Do { action: action@, stage: stage@ },
            Move::Finished(outcome) => MoveView::Finished(outcome),
        }
    }
}

/// What the user is shown when the model fails for `reason`.
pub open spec fn failure_text(reason: Seq<char>) -> Seq<char> {
    "OpenAI: "@ + reason
}

/// The message that the bot's reply to `message` is: written by the bot,
/// holding the model's answer, replying to `message`.
pub open spec fn reply_message(
    message: MessageView,
    bot_id: u64,
    id: u64,
    text: Seq<char>,
) -> MessageView {
    MessageView { id, author: bot_id, content: text, parent: Some(message.id) }
}

/// The move that asks the model about `message`, with `history` as the
/// turns so far.
pub open spec fn ask_model(message: MessageView, history: Seq<TurnView>, origin: Origin) -> MoveView {
    MoveView::Do {
        action: ActionView::AskModel { history, text: message.content, origin },
        stage: StageView::AskingModel,
    }
}

/// The move that follows a step of resolving the user's message. A message
/// that joined a conversation has its turn recorded already; the turn of a
/// message that began one is recorded next.
pub open spec fn after_user_step(message: MessageView, bot_id: u64, step: StepView) -> MoveView {
    match step {
        StepView::Ask { request, phase } => MoveView::Do {
            action: ActionView::Store(request),
            stage: StageView::ResolvingUser(phase),
        },
        StepView::Finished(resolution) => if resolution.origin == Origin::Continued {
            ask_model(message, resolution.history, resolution.origin)
        } else {
            MoveView::Do {
                action: ActionView::Store(
                    append_question(resolution.key, turn_of(message, bot_id)),
                ),
                stage: StageView::RecordingUser { origin: resolution.origin },
            }
        },
    }
}

/// The move that follows a step of resolving the bot's reply.
pub open spec fn after_reply_step(reply: MessageView, bot_id: u64, step: StepView) -> MoveView {
    match step {
        StepView::Ask { request, phase } => MoveView::Do {
            action: ActionView::Store(request),
            stage: StageView::ResolvingReply { reply, phase },
        },
        StepView::Finished(resolution) => if resolution.origin == Origin::Continued {
            MoveView::Finished(Outcome::Answered { joined: resolution.origin })
        } else {
            MoveView::Do {
                action: ActionView::Store(append_question(resolution.key, turn_of(reply, bot_id))),
                stage: StageView::RecordingReply { origin: resolution.origin },
            }
        },
    }
}

/// The first move for `message`: a message of the bot's own is left alone,
/// any other is resolved.
pub open spec fn first_move(message: MessageView, bot_id: u64) -> MoveView {
    if message.author == bot_id {
        MoveView::Finished(Outcome::Ignored)
    } else {
        after_user_step(message, bot_id, first_step(message))
    }
}

/// The move that follows when the call made in `stage` came back with
/// `event`.
pub open spec fn next_move(
    message: MessageView,
    bot_id: u64,
    stage: StageView,
    event: EventView,
) -> MoveView {
    match stage {
        StageView::ResolvingUser(phase) => match event {
            EventView::Store(reply) => after_user_step(
                message,
                bot_id,
                next_step(message, bot_id, phase, reply),
            ),
            _ => MoveView::Finished(Outcome::Failed(Fault::MalformedInput)),
        },
        StageView::RecordingUser { origin } => match event {
            EventView::Store(_) => ask_model(message, Seq::empty(), origin),
            _ => MoveView::Finished(Outcome::Failed(Fault::MalformedInput)),
        },
        StageView::AskingModel => match event {
            EventView::Model(Ok(text)) => MoveView::Do {
                action: ActionView::PostReply { text },
                stage: StageView::Replying { text },
            },
            EventView::Model(Err(reason)) => MoveView::Do {
                action: ActionView::PostError { text: failure_text(reason) },
                stage: StageView::ReportingFailure,
            },
            _ => MoveView::Finished(Outcome::Failed(Fault::MalformedInput)),
        },
        StageView::Replying { text } => match event {
            EventView::Posted(Some(id)) => after_reply_step(
                reply_message(message, bot_id, id, text),
                bot_id,
                first_step(reply_message(message, bot_id, id, text)),
            ),
            EventView::Posted(None) => MoveView::Finished(Outcome::Failed(Fault::RemoteCallFailed)),
            _ => MoveView::Finished(Outcome::Failed(Fault::MalformedInput)),
        },
        StageView::ResolvingReply { reply, phase } => match event {
            EventView::Store(answer) => after_reply_step(
                reply,
                bot_id,
                next_step(reply, bot_id, phase, answer),
            ),
            _ => MoveView::Finished(Outcome::Failed(Fault::MalformedInput)),
        },
        StageView::RecordingReply { origin } => match event {
            EventView::Store(_) => MoveView::Finished(Outcome::Answered { joined: origin }),
            _ => MoveView::Finished(Outcome::Failed(Fault::MalformedInput)),
        },
        StageView::ReportingFailure => match event {
            EventView::Posted(_) => MoveView::Finished(Outcome::Failed(Fault::RemoteCallFailed)),
            _ => MoveView::Finished(Outcome::Failed(Fault::MalformedInput)),
        },
    }
}

/// How many calls may still follow a move, at most.
pub open spec fn moves_left(next: MoveView) -> nat {
    match next {
        MoveView::Finished(_) => 0,
        MoveView::Do { stage, .. } => match stage {
            StageView::ResolvingUser(phase) => 12 + questions_left(phase),
            StageView::RecordingUser { .. } => 11,
            StageView::AskingModel => 10,
            StageView::Replying { .. } => 9,
            StageView::ResolvingReply { phase, .. } => 2 + questions_left(phase),
            StageView::RecordingReply { .. } => 1,
            StageView::ReportingFailure => 1,
        },
    }
}

/// Whether a move posts something to the user.
pub open spec fn posts(next: MoveView) -> bool {
    match next {
        MoveView::Do { action, .. } => action is PostReply || action is PostError,
        MoveView::Finished(_) => false,
    }
}

/// Whether a move writes to or reads from the store.
pub open spec fn asks_store(next: MoveView) -> bool {
    match next {
        MoveView::Do { action, .. } => action is Store,
        MoveView::Finished(_) => false,
    }
}

/// Every outcome brings the end nearer: the work on a message ends after
/// seventeen calls at most.
pub proof fn lemma_moves_run_out(
    message: MessageView,
    bot_id: u64,
    action: ActionView,
    stage: StageView,
    event: EventView,
)
    ensures
        moves_left(first_move(message, bot_id)) <= 17,
        moves_left(next_move(message, bot_id, stage, event)) < moves_left(
            (MoveView::Do { action, stage }),
        ),
{
}

/// Something is posted to the user only when the model has just answered or
/// failed. As the stages never come back to the model, at most one post is
/// made for a message.
pub proof fn lemma_one_post_at_most(
    message: MessageView,
    bot_id: u64,
    stage: StageView,
    event: EventView,
)
    ensures
        !posts(first_move(message, bot_id)),
        posts(next_move(message, bot_id, stage, event)) ==> stage is AskingModel,
        stage is AskingModel ==> moves_left(next_move(message, bot_id, stage, event)) < 10,
{
}

/// Once the model has failed, the user is told so, nothing more is asked of
/// the store, and no turn of the assistant is recorded: what follows is the
/// end.
pub proof fn lemma_failure_writes_nothing(
    message: MessageView,
    bot_id: u64,
    reason: Seq<char>,
    event: EventView,
)
    ensures
        next_move(message, bot_id, StageView::AskingModel, EventView::Model(Err(reason)))
            == (MoveView::Do {
            action: ActionView::PostError { text: failure_text(reason) },
            stage: StageView::ReportingFailure,
        }),
        !asks_store(
            next_move(message, bot_id, StageView::AskingModel, EventView::Model(Err(reason))),
        ),
        next_move(message, bot_id, StageView::ReportingFailure, event) is Finished,
{
}

/// The move that asks the model about `message`.
fn ask_model_about(message: &Message, history: Vec<Turn>, origin: Origin) -> (r: Move)
    ensures
        r@ == ask_model(message@, turn_views(history@), origin),
{
    Move::Do {
        action: Action::AskModel { history, text: message.content.clone(), origin },
        stage: Stage::AskingModel,
    }
}

/// The move that follows a step of resolving the user's message.
fn follow_user_step(message: &Message, bot_id: u64, step: ResolveStep) -> (r: Move)
    ensures
        r@ == after_user_step(message@, bot_id, step@),
{
    match step {
        ResolveStep::Ask { request, phase } => Move::Do {
            action: Action::Store(request),
            stage: Stage::ResolvingUser(phase),
        },
        ResolveStep::Finished(resolution) => {
            let Resolution { key, history, origin } = resolution;
            match origin {
                Origin::Continued => ask_model_about(message, history, origin),
                _ => {
                    let turn = turn_for(message, bot_id);
                    Move::Do {
                        action: Action::Store(append_request(&key, &turn)),
                        stage: Stage::RecordingUser { origin },
                    }
                },
            }
        },
    }
}

/// The move that follows a step of resolving the bot's reply.
fn follow_reply_step(reply: Message, bot_id: u64, step: ResolveStep) -> (r: Move)
    ensures
        r@ == after_reply_step(reply@, bot_id, step@),
{
    match step {
        ResolveStep::Ask { request, phase } => Move::Do {
            action: Action::Store(request),
            stage: Stage::ResolvingReply { reply, phase },
        },
        ResolveStep::Finished(resolution) => {
            match resolution.origin {
                Origin::Continued => Move::Finished(
                    Outcome::Answered { joined: Origin::Continued },
                ),
                _ => {
                    let turn = turn_for(&reply, bot_id);
                    Move::Do {
                        action: Action::Store(append_request(&resolution.key, &turn)),
                        stage: Stage::RecordingReply { origin: resolution.origin },
                    }
                },
            }
        },
    }
}

/// The first move for `message`.
pub fn begin(message: &Message, bot_id: u64) -> (r: Move)
    ensures
        r@ == first_move(message@, bot_id),
{
    if message.author == bot_id {
        Move::Finished(Outcome::Ignored)
    } else {
        follow_user_step(message, bot_id, begin_resolve(message))
    }
}

/// The move that follows when the call made in `stage` came back with
/// `event`.
pub fn advance(message: &Message, bot_id: u64, stage: Stage, event: Event) -> (r: Move)
    ensures
        r@ == next_move(message@, bot_id, stage@, event@),
{
    match stage {
        Stage::ResolvingUser(phase) => match event {
            Event::Store(reply) => follow_user_step(
                message,
                bot_id,
                continue_resolve(message, bot_id, phase, reply),
            ),
            _ => Move::Finished(Outcome::Failed(Fault::MalformedInput)),
        },
        Stage::RecordingUser { origin } => match event {
            Event::Store(_) => {
                let history: Vec<Turn> = Vec::new();
                assert(turn_views(history@) =~= Seq::<TurnView>::empty());
                ask_model_about(message, history, origin)
            },
            _ => Move::Finished(Outcome::Failed(Fault::MalformedInput)),
        },
        Stage::AskingModel => match event {
            Event::Model(Ok(text)) => Move::Do {
                action: Action::PostReply { text: text.clone() },
                stage: Stage::Replying { text },
            },
            Event::Model(Err(reason)) => Move::Do {
                action: Action::PostError { text: joined("OpenAI: ", reason.as_str()) },
                stage: Stage::ReportingFailure,
            },
            _ => Move::Finished(Outcome::Failed(Fault::MalformedInput)),
        },
        Stage::Replying { text } => match event {
            Event::Posted(Some(id)) => {
                let reply = Message { id, author: bot_id, content: text, parent: Some(message.id) };
                let step = begin_resolve(&reply);
                follow_reply_step(reply, bot_id, step)
            },
            Event::Posted(None) => Move::Finished(Outcome::Failed(Fault::RemoteCallFailed)),
            _ => Move::Finished(Outcome::Failed(Fault::MalformedInput)),
        },
        Stage::ResolvingReply { reply, phase } => match event {
            Event::Store(answer) => {
                let step = continue_resolve(&reply, bot_id, phase, answer);
                follow_reply_step(reply, bot_id, step)
            },
            _ => Move::Finished(Outcome::Failed(Fault::MalformedInput)),
        },
        Stage::RecordingReply { origin } => match event {
            Event::Store(_) => Move::Finished(Outcome::Answered { joined: origin }),
            _ => Move::Finished(Outcome::Failed(Fault::MalformedInput)),
        },
        Stage::ReportingFailure => match event {
            Event::Posted(_) => Move::Finished(Outcome::Failed(Fault::RemoteCallFailed)),
            _ => Move::Finished(Outcome::Failed(Fault::MalformedInput)),
        },
    }
}

/// What a call comes back with, and what the store holds afterwards, when
/// the store is one that holds `state`, the model answers `model` and
/// posting gives `posted`.
pub open spec fn event_for(
    state: StoreState,
    in_reach: bool,
    now: nat,
    model: Result<Seq<char>, Seq<char>>,
    posted: Option<u64>,
    action: ActionView,
) -> (StoreState, EventView) {
    match action {
        ActionView::Store(request) => {
            let (after, reply) = answered(state, in_reach, request, now);
            (after, EventView::Store(reply))
        },
        ActionView::AskModel { .. } => (state, EventView::Model(model)),
        ActionView::PostReply { .. } => (state, EventView::Posted(posted)),
        ActionView::PostError { .. } => (state, EventView::Posted(posted)),
    }
}

/// How the work ends, and what the store then holds, when the moves from
/// `next` on are played through. `fuel` bounds the number of calls;
/// `moves_left` of the move is always enough.
pub open spec fn play(
    state: StoreState,
    in_reach: bool,
    message: MessageView,
    bot_id: u64,
    now: nat,
    model: Result<Seq<char>, Seq<char>>,
    posted: Option<u64>,
    next: MoveView,
    fuel: nat,
) -> (StoreState, Outcome)
    decreases fuel,
{
    match next {
        MoveView::Finished(outcome) => (state, outcome),
        MoveView::Do { action, stage } => if fuel == 0 {
            (state, Outcome::Failed(Fault::MalformedInput))
        } else {
            let (after, event) = event_for(state, in_reach, now, model, posted, action);
            play(
                after,
                in_reach,
                message,
                bot_id,
                now,
                model,
                posted,
                next_move(message, bot_id, stage, event),
                (fuel - 1) as nat,
            )
        },
    }
}

/// What the store holds once `message` has been resolved and its turn is on
/// record: a message that joined a conversation has its turn recorded by
/// resolving; the turn of one that began a conversation is recorded next.
pub open spec fn settled(
    state: StoreState,
    in_reach: bool,
    message: MessageView,
    bot_id: u64,
    now: nat,
) -> StoreState {
    let (after, resolution) = resolved(state, in_reach, message, bot_id, now);
    if resolution.origin == Origin::Continued {
        after
    } else {
        answered(
            after,
            in_reach,
            append_question(resolution.key, turn_of(message, bot_id)),
            now,
        ).0
    }
}

/// How the work on `message` ends, and what the store then holds, given
/// what the store held before, what the model answers and what posting
/// gives.
///
/// A message of the bot's own changes nothing. Any other message is
/// resolved and its turn recorded. Where the model fails, or its answer
/// cannot be posted, that is all. Otherwise the bot's reply is resolved as
/// a reply to the message, and its turn recorded.
pub open spec fn handled(
    state: StoreState,
    in_reach: bool,
    message: MessageView,
    bot_id: u64,
    now: nat,
    model: Result<Seq<char>, Seq<char>>,
    posted: Option<u64>,
) -> (StoreState, Outcome) {
    if message.author == bot_id {
        (state, Outcome::Ignored)
    } else {
        let heard = settled(state, in_reach, message, bot_id, now);
        match (model, posted) {
            (Ok(text), Some(id)) => {
                let reply = reply_message(message, bot_id, id, text);
                (
                    settled(heard, in_reach, reply, bot_id, now),
                    Outcome::Answered {
                        joined: resolved(heard, in_reach, reply, bot_id, now).1.origin,
                    },
                )
            },
            _ => (heard, Outcome::Failed(Fault::RemoteCallFailed)),
        }
    }
}

/// More fuel than the moves need changes nothing.
pub proof fn lemma_play_fuel(
    state: StoreState,
    in_reach: bool,
    message: MessageView,
    bot_id: u64,
    now: nat,
    model: Result<Seq<char>, Seq<char>>,
    posted: Option<u64>,
    next: MoveView,
    fuel: nat,
)
    requires
        fuel >= moves_left(next),
    ensures
        play(state, in_reach, message, bot_id, now, model, posted, next, fuel) == play(
            state,
            in_reach,
            message,
            bot_id,
            now,
            model,
            posted,
            next,
            moves_left(next),
        ),
    decreases fuel,
{
    match next {
        MoveView::Finished(_) => {},
        MoveView::Do { action, stage } => {
            let (after, event) = event_for(state, in_reach, now, model, posted, action);
            let following = next_move(message, bot_id, stage, event);
            lemma_moves_run_out(message, bot_id, action, stage, event);
            lemma_play_fuel(
                after,
                in_reach,
                message,
                bot_id,
                now,
                model,
                posted,
                following,
                (fuel - 1) as nat,
            );
            lemma_play_fuel(
                after,
                in_reach,
                message,
                bot_id,
                now,
                model,
                posted,
                following,
                (moves_left(next) - 1) as nat,
            );
        },
    }
}

/// Playing the steps of resolving the user's message through comes to the
/// move that follows the resolution, with the store as resolving leaves it.
proof fn lemma_user_steps_played(
    state: StoreState,
    in_reach: bool,
    message: MessageView,
    bot_id: u64,
    now: nat,
    model: Result<Seq<char>, Seq<char>>,
    posted: Option<u64>,
    step: StepView,
)
    ensures
        ({
            let next = after_user_step(message, bot_id, step);
            let (after, resolution) = run(
                state,
                in_reach,
                message,
                bot_id,
                now,
                step,
                steps_left(step),
            );
            play(state, in_reach, message, bot_id, now, model, posted, next, moves_left(next))
                == play(
                after,
                in_reach,
                message,
                bot_id,
                now,
                model,
                posted,
                after_user_step(message, bot_id, StepView::Finished(resolution)),
                11,
            )
        }),
    decreases steps_left(step),
{
    let next = after_user_step(message, bot_id, step);
    match step {
        StepView::Finished(resolution) => {
            lemma_play_fuel(state, in_reach, message, bot_id, now, model, posted, next, 11);
        },
        StepView::Ask { request, phase } => {
            let (after, reply) = answered(state, in_reach, request, now);
            let following = next_step(message, bot_id, phase, reply);
            lemma_progress(message, bot_id, request, phase, reply);
            lemma_run_fuel(
                after,
                in_reach,
                message,
                bot_id,
                now,
                following,
                (steps_left(step) - 1) as nat,
            );
            lemma_play_fuel(
                after,
                in_reach,
                message,
                bot_id,
                now,
                model,
                posted,
                after_user_step(message, bot_id, following),
                (moves_left(next) - 1) as nat,
            );
            lemma_user_steps_played(
                after,
                in_reach,
                message,
                bot_id,
                now,
                model,
                posted,
                following,
            );
        },
    }
}

/// Playing the steps of resolving the bot's reply through comes to the move
/// that follows the resolution, with the store as resolving leaves it.
proof fn lemma_reply_steps_played(
    state: StoreState,
    in_reach: bool,
    message: MessageView,
    reply: MessageView,
    bot_id: u64,
    now: nat,
    model: Result<Seq<char>, Seq<char>>,
    posted: Option<u64>,
    step: StepView,
)
    ensures
        ({
            let next = after_reply_step(reply, bot_id, step);
            let (after, resolution) = run(
                state,
                in_reach,
                reply,
                bot_id,
                now,
                step,
                steps_left(step),
            );
            play(state, in_reach, message, bot_id, now, model, posted, next, moves_left(next))
                == play(
                after,
                in_reach,
                message,
                bot_id,
                now,
                model,
                posted,
                after_reply_step(reply, bot_id, StepView::Finished(resolution)),
                1,
            )
        }),
    decreases steps_left(step),
{
    let next = after_reply_step(reply, bot_id, step);
    match step {
        StepView::Finished(resolution) => {
            lemma_play_fuel(state, in_reach, message, bot_id, now, model, posted, next, 1);
        },
        StepView::Ask { request, phase } => {
            let (after, answer) = answered(state, in_reach, request, now);
            let following = next_step(reply, bot_id, phase, answer);
            lemma_progress(reply, bot_id, request, phase, answer);
            lemma_run_fuel(
                after,
                in_reach,
                reply,
                bot_id,
                now,
                following,
                (steps_left(step) - 1) as nat,
            );
            lemma_play_fuel(
                after,
                in_reach,
                message,
                bot_id,
                now,
                model,
                posted,
                after_reply_step(reply, bot_id, following),
                (moves_left(next) - 1) as nat,
            );
            lemma_reply_steps_played(
                after,
                in_reach,
                message,
                reply,
                bot_id,
                now,
                model,
                posted,
                following,
            );
        },
    }
}

/// Once the model is asked, the work ends in one of two ways: the answer is
/// posted and the bot's reply resolved and recorded, or nothing more is
/// written.
proof fn lemma_model_asked(
    heard: StoreState,
    in_reach: bool,
    message: MessageView,
    bot_id: u64,
    now: nat,
    model: Result<Seq<char>, Seq<char>>,
    posted: Option<u64>,
    history: Seq<TurnView>,
    origin: Origin,
)
    ensures
        play(
            heard,
            in_reach,
            message,
            bot_id,
            now,
            model,
            posted,
            ask_model(message, history, origin),
            10,
        ) == match (model, posted) {
            (Ok(text), Some(id)) => {
                let reply = reply_message(message, bot_id, id, text);
                (
                    settled(heard, in_reach, reply, bot_id, now),
                    Outcome::Answered {
                        joined: resolved(heard, in_reach, reply, bot_id, now).1.origin,
                    },
                )
            },
            _ => (heard, Outcome::Failed(Fault::RemoteCallFailed)),
        },
{
    reveal_with_fuel(play, 3);
    match (model, posted) {
        (Ok(text), Some(id)) => {
            let reply = reply_message(message, bot_id, id, text);
            let first = after_reply_step(reply, bot_id, first_step(reply));
            assert(play(
                heard,
                in_reach,
                message,
                bot_id,
                now,
                model,
                posted,
                ask_model(message, history, origin),
                10,
            ) == play(heard, in_reach, message, bot_id, now, model, posted, first, 8));
            lemma_play_fuel(heard, in_reach, message, bot_id, now, model, posted, first, 8);
            lemma_reply_steps_played(
                heard,
                in_reach,
                message,
                reply,
                bot_id,
                now,
                model,
                posted,
                first_step(reply),
            );
            lemma_run_resolves(heard, in_reach, reply, bot_id, now);
        },
        _ => {},
    }
}

/// Playing the moves for a message through, from the first, ends as
/// `handled` says.
pub proof fn lemma_play_handles(
    state: StoreState,
    in_reach: bool,
    message: MessageView,
    bot_id: u64,
    now: nat,
    model: Result<Seq<char>, Seq<char>>,
    posted: Option<u64>,
)
    ensures
        play(
            state,
            in_reach,
            message,
            bot_id,
            now,
            model,
            posted,
            first_move(message, bot_id),
            moves_left(first_move(message, bot_id)),
        ) == handled(state, in_reach, message, bot_id, now, model, posted),
{
    if message.author != bot_id {
        let (after, resolution) = resolved(state, in_reach, message, bot_id, now);
        let heard = settled(state, in_reach, message, bot_id, now);
        let resumed = after_user_step(message, bot_id, StepView::Finished(resolution));
        lemma_user_steps_played(
            state,
            in_reach,
            message,
            bot_id,
            now,
            model,
            posted,
            first_step(message),
        );
        lemma_run_resolves(state, in_reach, message, bot_id, now);
        if resolution.origin == Origin::Continued {
            lemma_play_fuel(after, in_reach, message, bot_id, now, model, posted, resumed, 11);
            lemma_model_asked(
                after,
                in_reach,
                message,
                bot_id,
                now,
                model,
                posted,
                resolution.history,
                resolution.origin,
            );
        } else {
            reveal_with_fuel(play, 2);
            assert(play(after, in_reach, message, bot_id, now, model, posted, resumed, 11)
                == play(
                heard,
                in_reach,
                message,
                bot_id,
                now,
                model,
                posted,
                ask_model(message, Seq::empty(), resolution.origin),
                10,
            ));
            lemma_model_asked(
                heard,
                in_reach,
                message,
                bot_id,
                now,
                model,
                posted,
                Seq::empty(),
                resolution.origin,
            );
        }
    }
}

/// Once a message has been resolved and its turn recorded, its
/// conversation holds the turns it held before and the message's turn at
/// the end, and the message's pointer names the conversation.
pub proof fn lemma_settled_adds_one_turn(
    state: StoreState,
    message: MessageView,
    bot_id: u64,
    now: nat,
)
    requires
        history_in(state, resolved(state, true, message, bot_id, now).1.key) is Some,
    ensures
        ({
            let key = resolved(state, true, message, bot_id, now).1.key;
            let heard = settled(state, true, message, bot_id, now);
            &&& history_in(heard, key) == Some(
                history_in(state, key).unwrap().push(turn_of(message, bot_id)),
            )
            &&& heard.value_at(pointer_name(message.id), now) == Some(key)
        }),
{
    let key = resolved(state, true, message, bot_id, now).1.key;
    let before = state.list_at(thread_name(key));
    lemma_decoded_push(before, decoded_all(before).unwrap(), turn_of(message, bot_id));
}

/// Where the model fails, or its answer cannot be posted, the store holds
/// what it held once the user's message was resolved and its turn
/// recorded, and nothing more: the conversation has gained the user's turn
/// and no turn of the assistant.
pub proof fn lemma_failure_keeps_user_turn_only(
    state: StoreState,
    message: MessageView,
    bot_id: u64,
    now: nat,
    model: Result<Seq<char>, Seq<char>>,
    posted: Option<u64>,
)
    requires
        message.author != bot_id,
        model is Err || posted is None,
        history_in(state, resolved(state, true, message, bot_id, now).1.key) is Some,
    ensures
        ({
            let key = resolved(state, true, message, bot_id, now).1.key;
            let (after, outcome) = handled(state, true, message, bot_id, now, model, posted);
            &&& outcome == Outcome::Failed(Fault::RemoteCallFailed)
            &&& after == settled(state, true, message, bot_id, now)
            &&& history_in(after, key) == Some(
                history_in(state, key).unwrap().push(turn_of(message, bot_id)),
            )
        }),
{
    lemma_settled_adds_one_turn(state, message, bot_id, now);
}

/// A message that is answered leaves two turns at the end of its
/// conversation: its own, then the assistant's with the model's answer as
/// its content. The pointers of the message and of the bot's reply both
/// name the conversation, so that a reply to either finds it.
pub proof fn lemma_answer_joins_conversation(
    state: StoreState,
    message: MessageView,
    bot_id: u64,
    now: nat,
    text: Seq<char>,
    reply_id: u64,
)
    requires
        message.author != bot_id,
        history_in(state, resolved(state, true, message, bot_id, now).1.key) is Some,
    ensures
        ({
            let key = resolved(state, true, message, bot_id, now).1.key;
            let (after, outcome) = handled(
                state,
                true,
                message,
                bot_id,
                now,
                Ok(text),
                Some(reply_id),
            );
            &&& outcome == Outcome::Answered { joined: Origin::Continued }
            &&& history_in(after, key) == Some(
                history_in(state, key).unwrap().push(turn_of(message, bot_id)).push(
                    TurnView { role: Role::Assistant, content: text },
                ),
            )
            &&& after.value_at(pointer_name(message.id), now) == Some(key)
            &&& after.value_at(pointer_name(reply_id), now) == Some(key)
        }),
{
    let key = resolved(state, true, message, bot_id, now).1.key;
    let heard = settled(state, true, message, bot_id, now);
    let reply = reply_message(message, bot_id, reply_id, text);
    lemma_settled_adds_one_turn(state, message, bot_id, now);
    assert(resolved(heard, true, reply, bot_id, now).1.key == key);
    lemma_settled_adds_one_turn(heard, reply, bot_id, now);
    if pointer_name(reply_id) == pointer_name(message.id) {
        lemma_pointer_name_injective(reply_id, message.id);
    }
}

/// The model's answer with its texts as mathematical values.
pub open spec fn answer_view(model: Result<String, String>) -> Result<Seq<char>, Seq<char>> {
    match model {
        Ok(text) => Ok(text@),
        Err(reason) => Err(reason@),
    }
}

/// What is posted for the user: the model's answer, or word of its failure.
pub open spec fn post_for(model: Result<Seq<char>, Seq<char>>) -> Seq<char> {
    match model {
        Ok(text) => text,
        Err(reason) => failure_text(reason),
    }
}

/// What is posted for the user: the model's answer, or word of its failure.
pub fn post_text(model: &Result<String, String>) -> (r: String)
    ensures
        r@ == post_for(answer_view(*model)),
{
    match model {
        Ok(text) => text.clone(),
        Err(reason) => joined("OpenAI: ", reason.as_str()),
    }
}

/// Resolves `message` against a store held in memory and sees to it that
/// its turn is on record: resolving records the turn of a message that
/// joins a conversation; the turn of a message that begins one is appended
/// here.
pub fn settle(store: &mut MemoryStore, message: &Message, bot_id: u64, now: u64) -> (r: Resolution)
    ensures
        final(store).in_reach() == old(store).in_reach(),
        final(store)@ == settled(
            old(store)@,
            old(store).in_reach(),
            message@,
            bot_id,
            now as nat,
        ),
        r@ == resolved(old(store)@, old(store).in_reach(), message@, bot_id, now as nat).1,
{
    let resolution = resolve(store, message, bot_id, now);
    match resolution.origin {
        Origin::Continued => {},
        _ => {
            let turn = turn_for(message, bot_id);
            let _ = append_turn(store, &resolution.key, &turn, now);
        },
    }
    resolution
}

} // verus!

//! Messages as they arrive, and the turns a conversation is made of.

use vstd::prelude::*;
use crate::text::{has_prefix, joined, text_from, text_views};

verus! {

/// Who spoke a turn.
#[derive(Clone, Copy, Debug, PartialEq, Eq, Structural)]
pub enum Role {
    User,
    Assistant,
}

/// One utterance of a conversation.
#[derive(Debug)]
pub struct Turn {
    pub role: Role,
    pub content: String,
}

/// A turn as a mathematical value.
pub struct TurnView {
    pub role: Role,
    pub content: Seq<char>,
}

impl View for Turn {
    type V = TurnView;

    open spec fn view(&self) -> TurnView {
        TurnView { role: self.role, content: self.content@ }
    }
}

impl Clone for Turn {
    fn clone(&self) -> (r: Self)
        ensures
            r@ == self@,
    {
        Turn { role: self.role, content: self.content.clone() }
    }
}

/// A message as the chat system delivers it. `parent` is the message it
/// replies to, if it replies to one.
#[derive(Debug)]
pub struct Message {
    pub id: u64,
    pub author: u64,
    pub content: String,
    pub parent: Option<u64>,
}

/// A message as a mathematical value.
pub struct MessageView {
    pub id: u64,
    pub author: u64,
    pub content: Seq<char>,
    pub parent: Option<u64>,
}

impl View for Message {
    type V = MessageView;

    open spec fn view(&self) -> MessageView {
        MessageView { id: self.id, author: self.author, content: self.content@, parent: self.parent }
    }
}

impl Clone for Message {
    fn clone(&self) -> (r: Self)
        ensures
            r@ == self@,
    {
        Message { id: self.id, author: self.author, content: self.content.clone(), parent: self.parent }
    }
}

/// The views of a list of turns, in order.
pub open spec fn turn_views(turns: Seq<Turn>) -> Seq<TurnView> {
    turns.map_values(|t: Turn| t@)
}

/// The role under which a message enters a conversation: the bot's own
/// messages are the assistant's turns, all others the user's.
pub open spec fn role_of(author: u64, bot_id: u64) -> Role {
    if author == bot_id {
        Role::Assistant
    } else {
        Role::User
    }
}

/// The turn that a message contributes to its conversation.
pub open spec fn turn_of(message: MessageView, bot_id: u64) -> TurnView {
    TurnView { role: role_of(message.author, bot_id), content: message.content }
}

/// The tag that marks a stored turn as the user's.
pub open spec fn user_tag() -> Seq<char> {
    seq!['u', 's', 'e', 'r', ':']
}

/// The tag that marks a stored turn as the assistant's.
pub open spec fn assistant_tag() -> Seq<char> {
    seq!['a', 's', 's', 'i', 's', 't', 'a', 'n', 't', ':']
}

/// A turn as it is stored: the tag of its role, then its content unchanged.
pub open spec fn encoded(turn: TurnView) -> Seq<char> {
    match turn.role {
        Role::User => user_tag() + turn.content,
        Role::Assistant => assistant_tag() + turn.content,
    }
}

/// The turn that a stored text holds, if it holds one.
pub open spec fn decoded(stored: Seq<char>) -> Option<TurnView> {
    if user_tag().is_prefix_of(stored) {
        Some(TurnView { role: Role::User, content: stored.skip(user_tag().len() as int) })
    } else if assistant_tag().is_prefix_of(stored) {
        Some(TurnView { role: Role::Assistant, content: stored.skip(assistant_tag().len() as int) })
    } else {
        None
    }
}

/// The turns that a stored list holds, if every entry holds one.
pub open spec fn decoded_all(stored: Seq<Seq<char>>) -> Option<Seq<TurnView>> {
    if forall|i: int| 0 <= i < stored.len() ==> (#[trigger] decoded(stored[i])) is Some {
        Some(stored.map_values(|s: Seq<char>| decoded(s).unwrap()))
    } else {
        None
    }
}

/// The stored forms of a list of turns, in order.
pub open spec fn encoded_all(turns: Seq<TurnView>) -> Seq<Seq<char>> {
    turns.map_values(|t: TurnView| encoded(t))
}

/// Storing a turn and reading it back gives the same role and the same
/// content, whatever the content holds.
pub proof fn lemma_decode_encode(turn: TurnView)
    ensures
        decoded(encoded(turn)) == Some(turn),
{
    let stored = encoded(turn);
    match turn.role {
        Role::User => {
            assert(stored.subrange(0, user_tag().len() as int) =~= user_tag());
            assert(stored.skip(user_tag().len() as int) =~= turn.content);
        },
        Role::Assistant => {
            assert(stored[0] == 'a');
            assert(!user_tag().is_prefix_of(stored)) by {
                if user_tag().is_prefix_of(stored) {
                    assert(stored.subrange(0, user_tag().len() as int)[0] == user_tag()[0]);
                }
            }
            assert(stored.subrange(0, assistant_tag().len() as int) =~= assistant_tag());
            assert(stored.skip(assistant_tag().len() as int) =~= turn.content);
        },
    }
}

/// Storing a list of turns and reading it back gives the same turns in the
/// same order.
pub proof fn lemma_decode_encode_all(turns: Seq<TurnView>)
    ensures
        decoded_all(encoded_all(turns)) == Some(turns),
{
    let stored = encoded_all(turns);
    assert forall|i: int| 0 <= i < stored.len() implies (#[trigger] decoded(stored[i])) == Some(
        turns[i],
    ) by {
        lemma_decode_encode(turns[i]);
    }
    assert(stored.map_values(|s: Seq<char>| decoded(s).unwrap()) =~= turns);
}

/// A stored list that can be read stays readable when a turn is stored at
/// its end, and then reads as before with that turn at the end.
pub proof fn lemma_decoded_push(stored: Seq<Seq<char>>, turns: Seq<TurnView>, turn: TurnView)
    requires
        decoded_all(stored) == Some(turns),
    ensures
        decoded_all(stored.push(encoded(turn))) == Some(turns.push(turn)),
{
    let longer = stored.push(encoded(turn));
    lemma_decode_encode(turn);
    assert forall|i: int| 0 <= i < longer.len() implies (#[trigger] decoded(longer[i])) is Some by {
        if i < stored.len() {
            assert(longer[i] == stored[i]);
        }
    }
    assert(longer.map_values(|s: Seq<char>| decoded(s).unwrap()) =~= turns.push(turn));
}

/// The role of a message written by `author`.
pub fn role_for(author: u64, bot_id: u64) -> (r: Role)
    ensures
        r == role_of(author, bot_id),
{
    if author == bot_id {
        Role::Assistant
    } else {
        Role::User
    }
}

/// The turn that `message` contributes to its conversation.
pub fn turn_for(message: &Message, bot_id: u64) -> (r: Turn)
    ensures
        r@ == turn_of(message@, bot_id),
{
    Turn { role: role_for(message.author, bot_id), content: message.content.clone() }
}

/// The stored form of a turn.
pub fn encode_turn(turn: &Turn) -> (r: String)
    ensures
        r@ == encoded(turn@),
{
    proof {
        reveal_strlit("user:");
        reveal_strlit("assistant:");
    }
    match turn.role {
        Role::User => {
            assert("user:"@ =~= user_tag());
            joined("user:", turn.content.as_str())
        },
        Role::Assistant => {
            assert("assistant:"@ =~= assistant_tag());
            joined("assistant:", turn.content.as_str())
        },
    }
}

/// Reads a stored turn back. `None` when the text bears neither tag.
pub fn decode_turn(stored: &str) -> (r: Option<Turn>)
    ensures
        match r {
            Some(turn) => decoded(stored@) == Some(turn@),
            None => decoded(stored@) is None,
        },
{
    proof {
        reveal_strlit("user:");
        reveal_strlit("assistant:");
        assert("user:"@ =~= user_tag());
        assert("assistant:"@ =~= assistant_tag());
    }
    if has_prefix(stored, "user:") {
        Some(Turn { role: Role::User, content: text_from(stored, 5) })
    } else if has_prefix(stored, "assistant:") {
        Some(Turn { role: Role::Assistant, content: text_from(stored, 10) })
    } else {
        None
    }
}

/// Reads a stored list of turns back. `None` when some entry holds no turn.
pub fn decode_turns(stored: &Vec<String>) -> (r: Option<Vec<Turn>>)
    ensures
        match r {
            Some(turns) => decoded_all(text_views(stored@)) == Some(turn_views(turns@)),
            None => decoded_all(text_views(stored@)) is None,
        },
{
    let ghost texts = text_views(stored@);
    let mut turns: Vec<Turn> = Vec::new();
    let mut i: usize = 0;
    while i < stored.len()
        invariant
            i <= stored.len(),
            texts == text_views(stored@),
            turns.len() == i,
            forall|j: int| 0 <= j < i ==> decoded(texts[j]) == Some(#[trigger] turns[j]@),
        decreases stored.len() - i,
    {
        match decode_turn(stored[i].as_str()) {
            Some(turn) => {
                turns.push(turn);
            },
            None => {
                assert(decoded(texts[i as int]) is None);
                return None;
            },
        }
        i += 1;
    }
    proof {
        assert forall|j: int| 0 <= j < texts.len() implies (#[trigger] decoded(texts[j])) is Some by {
            assert(decoded(texts[j]) == Some(turns[j]@));
        }
        assert(texts.map_values(|s: Seq<char>| decoded(s).unwrap()) =~= turn_views(turns@));
    }
    Some(turns)
}

} // verus!

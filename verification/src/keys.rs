//! The names under which records are kept in the store, and the keys of
//! conversations.
//!
//! Three kinds of record share the store. Each kind has a prefix of its own,
//! so that no record of one kind can be taken for a record of another.

use vstd::prelude::*;
use crate::text::{decimal, joined, lemma_decimal_injective, render_decimal};

verus! {

/// The prefix of the records that lead from a message to its conversation.
pub open spec fn pointer_prefix() -> Seq<char> {
    seq!['p', 'o', 'i', 'n', 't', 'e', 'r', ':']
}

/// The prefix of the records that hold the turns of a conversation.
pub open spec fn thread_prefix() -> Seq<char> {
    seq!['t', 'h', 'r', 'e', 'a', 'd', ':']
}

/// The prefix of the records of links already seen.
pub open spec fn seen_prefix() -> Seq<char> {
    seq!['s', 'e', 'e', 'n', 'u', 'r', 'l', ':']
}

/// The prefix of the key of a conversation, before the number of the message
/// that began it.
pub open spec fn root_prefix() -> Seq<char> {
    seq!['r', 'o', 'o', 't', '-']
}

/// The key of the conversation that the message `id` begins.
pub open spec fn minted(id: u64) -> Seq<char> {
    root_prefix() + decimal(id as nat)
}

/// Where the pointer of the message `id` is kept.
pub open spec fn pointer_name(id: u64) -> Seq<char> {
    pointer_prefix() + decimal(id as nat)
}

/// Where the turns of the conversation `key` are kept.
pub open spec fn thread_name(key: Seq<char>) -> Seq<char> {
    thread_prefix() + key
}

/// Where the sighting of the link `url` is kept.
pub open spec fn seen_name(url: Seq<char>) -> Seq<char> {
    seen_prefix() + url
}

/// Two texts that follow the same prefix are equal when the whole texts are.
pub proof fn lemma_same_prefix_cancels(prefix: Seq<char>, a: Seq<char>, b: Seq<char>)
    requires
        prefix + a == prefix + b,
    ensures
        a == b,
{
    assert((prefix + a).skip(prefix.len() as int) =~= a);
    assert((prefix + b).skip(prefix.len() as int) =~= b);
}

/// Different messages begin conversations with different keys.
pub proof fn lemma_minted_injective(a: u64, b: u64)
    requires
        minted(a) == minted(b),
    ensures
        a == b,
{
    lemma_same_prefix_cancels(root_prefix(), decimal(a as nat), decimal(b as nat));
    lemma_decimal_injective(a as nat, b as nat);
}

/// Different messages have their pointers in different places.
pub proof fn lemma_pointer_name_injective(a: u64, b: u64)
    requires
        pointer_name(a) == pointer_name(b),
    ensures
        a == b,
{
    lemma_same_prefix_cancels(pointer_prefix(), decimal(a as nat), decimal(b as nat));
    lemma_decimal_injective(a as nat, b as nat);
}

/// Different conversations have their turns in different places.
pub proof fn lemma_thread_name_injective(a: Seq<char>, b: Seq<char>)
    requires
        thread_name(a) == thread_name(b),
    ensures
        a == b,
{
    lemma_same_prefix_cancels(thread_prefix(), a, b);
}

/// Different links have their sightings in different places.
pub proof fn lemma_seen_name_injective(a: Seq<char>, b: Seq<char>)
    requires
        seen_name(a) == seen_name(b),
    ensures
        a == b,
{
    lemma_same_prefix_cancels(seen_prefix(), a, b);
}

/// A pointer, the turns of a conversation and the sighting of a link are
/// never kept in the same place, whatever message, conversation and link
/// they belong to.
pub proof fn lemma_names_disjoint(id: u64, key: Seq<char>, url: Seq<char>)
    ensures
        pointer_name(id) != thread_name(key),
        pointer_name(id) != seen_name(url),
        thread_name(key) != seen_name(url),
{
    assert(pointer_name(id)[0] == 'p');
    assert(thread_name(key)[0] == 't');
    assert(seen_name(url)[0] == 's');
}

/// The key of a conversation: a text that stays the same for as long as the
/// conversation goes on.
#[derive(Debug)]
pub struct ThreadKey {
    text: String,
}

impl View for ThreadKey {
    type V = Seq<char>;

    closed spec fn view(&self) -> Seq<char> {
        self.text@
    }
}

impl Clone for ThreadKey {
    fn clone(&self) -> (r: Self)
        ensures
            r@ == self@,
    {
        ThreadKey { text: self.text.clone() }
    }
}

impl PartialEq for ThreadKey {
    fn eq(&self, other: &Self) -> (r: bool) {
        self.text == other.text
    }
}

impl vstd::std_specs::cmp::PartialEqSpecImpl for ThreadKey {
    open spec fn obeys_eq_spec() -> bool {
        true
    }

    open spec fn eq_spec(&self, other: &Self) -> bool {
        self@ == other@
    }
}

impl Eq for ThreadKey {

}

impl ThreadKey {
    /// The key of the conversation that the message `id` begins.
    pub fn mint(id: u64) -> (r: ThreadKey)
        ensures
            r@ == minted(id),
    {
        proof {
            reveal_strlit("root-");
            assert("root-"@ =~= root_prefix());
        }
        let digits = render_decimal(id);
        ThreadKey { text: joined("root-", digits.as_str()) }
    }

    /// The key whose text is `text`.
    pub fn from_text(text: String) -> (r: ThreadKey)
        ensures
            r@ == text@,
    {
        ThreadKey { text }
    }

    /// The text of the key.
    pub fn text(&self) -> (r: String)
        ensures
            r@ == self@,
    {
        self.text.clone()
    }
}

/// Where the pointer of the message `id` is kept.
pub fn pointer_key(id: u64) -> (r: String)
    ensures
        r@ == pointer_name(id),
{
    proof {
        reveal_strlit("pointer:");
        assert("pointer:"@ =~= pointer_prefix());
    }
    let digits = render_decimal(id);
    joined("pointer:", digits.as_str())
}

/// Where the turns of the conversation `key` are kept.
pub fn thread_key(key: &ThreadKey) -> (r: String)
    ensures
        r@ == thread_name(key@),
{
    proof {
        reveal_strlit("thread:");
        assert("thread:"@ =~= thread_prefix());
    }
    joined("thread:", key.text.as_str())
}

/// Where the sighting of the link `url` is kept. The link is taken as it is
/// written: two links are the same only if their texts are equal.
pub fn seen_key(url: &str) -> (r: String)
    ensures
        r@ == seen_name(url@),
{
    proof {
        reveal_strlit("seenurl:");
        assert("seenurl:"@ =~= seen_prefix());
    }
    joined("seenurl:", url)
}

} // verus!

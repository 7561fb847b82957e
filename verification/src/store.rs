//! The key-value store as the relay sees it: what it can be asked, what it
//! answers, and a store held in memory that answers by the same rules.
//!
//! The store keeps single texts, each with an optional time at which it is
//! forgotten, and lists of texts that only grow. Every question may go
//! unanswered: the store may be out of reach.

use vstd::prelude::*;
use crate::shelf::Shelf;
use crate::text::text_views;

verus! {

/// What can go wrong while a message is handled. None of these ends the
/// program: each is dealt with for the one message it concerns.
#[derive(Clone, Copy, Debug, PartialEq, Eq, Structural)]
pub enum Fault {
    /// The store could not be reached, or did not answer in time.
    StoreUnavailable,
    /// The language model could not be asked, or its answer could not be read.
    RemoteCallFailed,
    /// The store held something that could not be read back.
    MalformedInput,
}

/// A question to the store.
#[derive(Debug)]
pub enum StoreRequest {
    Get { key: String },
    Put { key: String, value: String },
    PutWithExpiry { key: String, value: String, ttl_seconds: u64 },
    AppendToList { key: String, value: String },
    ReadList { key: String },
}

/// A question to the store, as a mathematical value.
pub enum RequestView {
    Get { key: Seq<char> },
    Put { key: Seq<char>, value: Seq<char> },
    PutWithExpiry { key: Seq<char>, value: Seq<char>, ttl_seconds: u64 },
    AppendToList { key: Seq<char>, value: Seq<char> },
    ReadList { key: Seq<char> },
}

impl View for StoreRequest {
    type V = RequestView;

    open spec fn view(&self) -> RequestView {
        match *self {
            StoreRequest::Get { key } => RequestView::Get { key: key@ },
            StoreRequest::Put { key, value } => RequestView::Put { key: key@, value: value@ },
            StoreRequest::PutWithExpiry { key, value, ttl_seconds } => RequestView::PutWithExpiry {
                key: key@,
                value: value@,
                ttl_seconds,
            },
            StoreRequest::AppendToList { key, value } => RequestView::AppendToList {
                key: key@,
                value: value@,
            },
            StoreRequest::ReadList { key } => RequestView::ReadList { key: key@ },
        }
    }
}

/// The store's answer to a question.
#[derive(Debug)]
pub enum StoreReply {
    /// The text kept under the key that was asked for.
    Value(String),
    /// Nothing is kept under the key that was asked for.
    NotFound,
    /// What was to be written has been written.
    Done,
    /// The list kept under the key that was asked for, oldest entry first.
    List(Vec<String>),
    /// The store could not be reached.
    Unavailable,
}

/// An answer of the store, as a mathematical value.
pub enum ReplyView {
    Value(Seq<char>),
    NotFound,
    Done,
    List(Seq<Seq<char>>),
    Unavailable,
}

impl View for StoreReply {
    type V = ReplyView;

    open spec fn view(&self) -> ReplyView {
        match *self {
            StoreReply::Value(text) => ReplyView::Value(text@),
            StoreReply::NotFound => ReplyView::NotFound,
            StoreReply::Done => ReplyView::Done,
            StoreReply::List(items) => ReplyView::List(text_views(items@)),
            StoreReply::Unavailable => ReplyView::Unavailable,
        }
    }
}

/// The fault that an answer other than the expected one stands for.
pub open spec fn fault_of(reply: ReplyView) -> Fault {
    match reply {
        ReplyView::Unavailable => Fault::StoreUnavailable,
        _ => Fault::MalformedInput,
    }
}

/// The fault that an answer other than the expected one stands for.
pub fn fault_in(reply: &StoreReply) -> (r: Fault)
    ensures
        r == fault_of(reply@),
{
    match reply {
        StoreReply::Unavailable => Fault::StoreUnavailable,
        _ => Fault::MalformedInput,
    }
}

/// A text in the store, with the second at which it is forgotten, if it is
/// to be forgotten at all.
pub struct StoredValue {
    pub text: Seq<char>,
    pub deadline: Option<nat>,
}

/// What a store holds.
pub struct StoreState {
    pub values: Map<Seq<char>, StoredValue>,
    pub lists: Map<Seq<char>, Seq<Seq<char>>>,
}

impl StoreState {
    /// A store that holds nothing.
    pub open spec fn empty() -> StoreState {
        StoreState { values: Map::empty(), lists: Map::empty() }
    }

    /// The text under `key` at the second `now`: what was last written
    /// there, unless its time has run out.
    pub open spec fn value_at(self, key: Seq<char>, now: nat) -> Option<Seq<char>> {
        if self.values.contains_key(key) {
            match self.values[key].deadline {
                Some(deadline) => if now < deadline {
                    Some(self.values[key].text)
                } else {
                    None
                },
                None => Some(self.values[key].text),
            }
        } else {
            None
        }
    }

    /// The list under `key`, oldest entry first. A list that was never
    /// appended to is empty.
    pub open spec fn list_at(self, key: Seq<char>) -> Seq<Seq<char>> {
        if self.lists.contains_key(key) {
            self.lists[key]
        } else {
            Seq::empty()
        }
    }

    /// What a store in reach answers to `request` at the second `now`.
    pub open spec fn reply(self, request: RequestView, now: nat) -> ReplyView {
        match request {
            RequestView::Get { key } => match self.value_at(key, now) {
                Some(text) => ReplyView::Value(text),
                None => ReplyView::NotFound,
            },
            RequestView::Put { .. } => ReplyView::Done,
            RequestView::PutWithExpiry { .. } => ReplyView::Done,
            RequestView::AppendToList { .. } => ReplyView::Done,
            RequestView::ReadList { key } => ReplyView::List(self.list_at(key)),
        }
    }

    /// What a store in reach holds once it has answered `request` at the
    /// second `now`.
    pub open spec fn after(self, request: RequestView, now: nat) -> StoreState {
        match request {
            RequestView::Get { .. } => self,
            RequestView::Put { key, value } => StoreState {
                values: self.values.insert(key, StoredValue { text: value, deadline: None }),
                ..self
            },
            RequestView::PutWithExpiry { key, value, ttl_seconds } => StoreState {
                values: self.values.insert(
                    key,
                    StoredValue { text: value, deadline: Some(now + ttl_seconds as nat) },
                ),
                ..self
            },
            RequestView::AppendToList { key, value } => StoreState {
                lists: self.lists.insert(key, self.list_at(key).push(value)),
                ..self
            },
            RequestView::ReadList { .. } => self,
        }
    }

    /// What the store holds once everything under `key` has been dropped.
    pub open spec fn without(self, key: Seq<char>) -> StoreState {
        StoreState { values: self.values.remove(key), lists: self.lists.remove(key) }
    }
}

/// What a store answers to `request` at the second `now`, and what it holds
/// afterwards. A store out of reach answers `Unavailable` and keeps what it
/// holds.
pub open spec fn answered(
    state: StoreState,
    in_reach: bool,
    request: RequestView,
    now: nat,
) -> (StoreState, ReplyView) {
    if in_reach {
        (state.after(request, now), state.reply(request, now))
    } else {
        (state, ReplyView::Unavailable)
    }
}

/// A text as the memory store keeps it.
pub struct Timed {
    pub text: String,
    pub deadline: Option<u128>,
}

impl View for Timed {
    type V = StoredValue;

    open spec fn view(&self) -> StoredValue {
        StoredValue {
            text: self.text@,
            deadline: match self.deadline {
                Some(deadline) => Some(deadline as nat),
                None => None,
            },
        }
    }
}

/// A list as the memory store keeps it.
pub struct Listing {
    pub items: Vec<String>,
}

impl View for Listing {
    type V = Seq<Seq<char>>;

    open spec fn view(&self) -> Seq<Seq<char>> {
        text_views(self.items@)
    }
}

/// A copy of a list of texts.
pub fn copy_texts(texts: &Vec<String>) -> (r: Vec<String>)
    ensures
        text_views(r@) == text_views(texts@),
{
    let mut r: Vec<String> = Vec::new();
    let mut i: usize = 0;
    while i < texts.len()
        invariant
            i <= texts.len(),
            r.len() == i,
            forall|j: int| 0 <= j < i ==> r[j]@ == texts[j]@,
        decreases texts.len() - i,
    {
        r.push(texts[i].clone());
        i += 1;
    }
    assert(text_views(r@) =~= text_views(texts@));
    r
}

/// A key-value store held in memory. It answers as the store's contract
/// says, can be put out of reach, and can be made to drop a key, as a store
/// under memory pressure would.
pub struct MemoryStore {
    values: Shelf<Timed>,
    lists: Shelf<Listing>,
    reachable: bool,
}

impl View for MemoryStore {
    type V = StoreState;

    closed spec fn view(&self) -> StoreState {
        StoreState { values: self.values@, lists: self.lists@ }
    }
}

impl MemoryStore {
    /// Whether the store answers at all.
    pub closed spec fn in_reach(&self) -> bool {
        self.reachable
    }

    /// A store in reach that holds nothing.
    pub fn new() -> (r: Self)
        ensures
            r@ == StoreState::empty(),
            r.in_reach(),
    {
        MemoryStore { values: Shelf::new(), lists: Shelf::new(), reachable: true }
    }

    /// Puts the store in or out of reach. What it holds stays.
    pub fn set_reachable(&mut self, reachable: bool)
        ensures
            final(self)@ == old(self)@,
            final(self).in_reach() == reachable,
    {
        self.reachable = reachable;
    }

    /// Drops everything kept under `key`, whether or not the store is in
    /// reach.
    pub fn evict(&mut self, key: &String)
        ensures
            final(self)@ == old(self)@.without(key@),
            final(self).in_reach() == old(self).in_reach(),
    {
        let _ = self.values.take(key);
        let _ = self.lists.take(key);
    }

    /// The text under `key` at the second `now`.
    pub fn get(&self, key: &String, now: u64) -> (r: Result<Option<String>, Fault>)
        ensures
            match r {
                Ok(found) => self.in_reach() && match found {
                    Some(text) => self@.value_at(key@, now as nat) == Some(text@),
                    None => self@.value_at(key@, now as nat) is None,
                },
                Err(fault) => !self.in_reach() && fault == Fault::StoreUnavailable,
            },
    {
        if !self.reachable {
            return Err(Fault::StoreUnavailable);
        }
        match self.values.get(key) {
            Some(kept) => {
                let live = match kept.deadline {
                    Some(deadline) => (now as u128) < deadline,
                    None => true,
                };
                if live {
                    Ok(Some(kept.text.clone()))
                } else {
                    Ok(None)
                }
            },
            None => Ok(None),
        }
    }

    /// Writes `value` under `key`, to be kept until it is overwritten.
    pub fn set(&mut self, key: &String, value: &String, now: u64) -> (r: Result<(), Fault>)
        ensures
            final(self).in_reach() == old(self).in_reach(),
            old(self).in_reach() ==> r is Ok && final(self)@ == old(self)@.after(
                (RequestView::Put { key: key@, value: value@ }),
                now as nat,
            ),
            !old(self).in_reach() ==> r == Err::<(), Fault>(Fault::StoreUnavailable) && final(self)@ == old(self)@,
    {
        if !self.reachable {
            return Err(Fault::StoreUnavailable);
        }
        self.values.put(key.clone(), Timed { text: value.clone(), deadline: None });
        Ok(())
    }

    /// Writes `value` under `key`, to be forgotten `ttl_seconds` seconds
    /// after `now`.
    pub fn set_with_expiry(
        &mut self,
        key: &String,
        value: &String,
        ttl_seconds: u64,
        now: u64,
    ) -> (r: Result<(), Fault>)
        ensures
            final(self).in_reach() == old(self).in_reach(),
            old(self).in_reach() ==> r is Ok && final(self)@ == old(self)@.after(
                (RequestView::PutWithExpiry { key: key@, value: value@, ttl_seconds }),
                now as nat,
            ),
            !old(self).in_reach() ==> r == Err::<(), Fault>(Fault::StoreUnavailable) && final(self)@ == old(self)@,
    {
        if !self.reachable {
            return Err(Fault::StoreUnavailable);
        }
        let deadline: u128 = now as u128 + ttl_seconds as u128;
        self.values.put(key.clone(), Timed { text: value.clone(), deadline: Some(deadline) });
        Ok(())
    }

    /// Adds `value` at the end of the list under `key`.
    pub fn append_to_list(
        &mut self,
        key: &String,
        value: &String,
        now: u64,
    ) -> (r: Result<(), Fault>)
        ensures
            final(self).in_reach() == old(self).in_reach(),
            old(self).in_reach() ==> r is Ok && final(self)@ == old(self)@.after(
                (RequestView::AppendToList { key: key@, value: value@ }),
                now as nat,
            ),
            !old(self).in_reach() ==> r == Err::<(), Fault>(Fault::StoreUnavailable) && final(self)@ == old(self)@,
    {
        if !self.reachable {
            return Err(Fault::StoreUnavailable);
        }
        let mut listing = match self.lists.take(key) {
            Some(listing) => listing,
            None => Listing { items: Vec::new() },
        };
        assert(listing@ =~= old(self)@.list_at(key@));
        listing.items.push(value.clone());
        assert(listing@ =~= old(self)@.list_at(key@).push(value@));
        self.lists.put(key.clone(), listing);
        assert(self@.lists =~= old(self)@.lists.insert(key@, old(self)@.list_at(key@).push(value@)));
        Ok(())
    }

    /// The list under `key`, oldest entry first.
    pub fn read_list(&self, key: &String) -> (r: Result<Vec<String>, Fault>)
        ensures
            match r {
                Ok(items) => self.in_reach() && text_views(items@) == self@.list_at(key@),
                Err(fault) => !self.in_reach() && fault == Fault::StoreUnavailable,
            },
    {
        if !self.reachable {
            return Err(Fault::StoreUnavailable);
        }
        match self.lists.get(key) {
            Some(listing) => Ok(copy_texts(&listing.items)),
            None => {
                let items: Vec<String> = Vec::new();
                assert(text_views(items@) =~= self@.list_at(key@));
                Ok(items)
            },
        }
    }

    /// Answers `request` at the second `now`. A store out of reach answers
    /// `Unavailable` and keeps what it holds.
    pub fn serve(&mut self, request: &StoreRequest, now: u64) -> (r: StoreReply)
        ensures
            final(self).in_reach() == old(self).in_reach(),
            (final(self)@, r@) == answered(old(self)@, old(self).in_reach(), request@, now as nat),
    {
        match request {
            StoreRequest::Get { key } => match self.get(key, now) {
                Ok(Some(text)) => StoreReply::Value(text),
                Ok(None) => StoreReply::NotFound,
                Err(_) => StoreReply::Unavailable,
            },
            StoreRequest::Put { key, value } => match self.set(key, value, now) {
                Ok(_) => StoreReply::Done,
                Err(_) => StoreReply::Unavailable,
            },
            StoreRequest::PutWithExpiry { key, value, ttl_seconds } => match self.set_with_expiry(
                key,
                value,
                *ttl_seconds,
                now,
            ) {
                Ok(_) => StoreReply::Done,
                Err(_) => StoreReply::Unavailable,
            },
            StoreRequest::AppendToList { key, value } => match self.append_to_list(key, value, now) {
                Ok(_) => StoreReply::Done,
                Err(_) => StoreReply::Unavailable,
            },
            StoreRequest::ReadList { key } => match self.read_list(key) {
                Ok(items) => StoreReply::List(items),
                Err(_) => StoreReply::Unavailable,
            },
        }
    }
}

} // verus!

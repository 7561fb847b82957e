//! A chat relay's core: conversation threads kept in a key-value store, a
//! record of links already seen, and the decisions taken for each incoming
//! message. Every function here is verified; the program around it performs
//! the store, network and chat calls and hands the outcomes back.
//!
//! - `text`: decimal numerals, prefixes, words.
//! - `conversation`: messages, turns, and how turns are stored.
//! - `keys`: the names under which records are kept.
//! - `shelf`, `store`: what the store is asked and answers, and a store held
//!   in memory that answers by the same rules.
//! - `threads`: resolving a message to its conversation.
//! - `seen`: the record of links already seen.
//! - `orchestrator`: the work on a message that is meant for the bot, move
//!   by move.
//! - `links`: links in the text of a message.
//! - `handlers`: what is done for every message that arrives.
//! - `openai`, `commands`, `standings`: requests to the language model, and
//!   what the bot's commands answer.
//! - `outside`: what is taken from other crates without proof.

pub mod commands;
pub mod conversation;
pub mod handlers;
pub mod keys;
pub mod links;
pub mod openai;
pub mod orchestrator;
pub mod outside;
pub mod seen;
pub mod shelf;
pub mod standings;
pub mod store;
pub mod text;
pub mod threads;

use vstd::prelude::*;

verus! {

/// Where the key-value store is reached. The program opens its connection
/// from this address; the library itself never connects.
#[derive(Debug)]
pub struct RedisClient {
    pub url: String,
}

/// What every command and handler is given: the store to turn to, and the
/// number by which the chat system knows the bot.
#[derive(Debug)]
pub struct Data {
    pub redis_client: RedisClient,
    pub bot_id: u64,
}

} // verus!

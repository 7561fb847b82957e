//! What the bot's commands answer, once the outcome of their outside work
//! is known.

use vstd::prelude::*;
use crate::handlers::lookup_request;
use crate::keys::{seen_key, seen_name};
use crate::outside::table_text;
use crate::standings::{format_standings, header_cells, table_cells, StandingsResponse};
use crate::store::{Fault, MemoryStore, ReplyView, RequestView, StoreReply, StoreRequest};
use crate::text::{joined, text_views};

verus! {

/// What a command sends back.
#[derive(Debug)]
pub enum CommandReply {
    /// A plain message; an ephemeral one is shown to the caller alone.
    Content { text: String, ephemeral: bool },
    /// A framed message with a title, a body and a footer.
    Embed { title: String, description: String, footer: String },
}

/// A command's reply as a mathematical value.
pub enum CommandReplyView {
    Content { text: Seq<char>, ephemeral: bool },
    Embed { title: Seq<char>, description: Seq<char>, footer: Seq<char> },
}

impl View for CommandReply {
    type V = CommandReplyView;

    open spec fn view(&self) -> CommandReplyView {
        match *self {
            CommandReply::Content { text, ephemeral } => CommandReplyView::Content {
                text: text@,
                ephemeral,
            },
            CommandReply::Embed { title, description, footer } => CommandReplyView::Embed {
                title: title@,
                description: description@,
                footer: footer@,
            },
        }
    }
}

/// The texts one below the other: a line break between each two, none at
/// the end.
pub open spec fn lines_of(texts: Seq<Seq<char>>) -> Seq<char>
    decreases texts.len(),
{
    if texts.len() == 0 {
        Seq::empty()
    } else if texts.len() == 1 {
        texts[0]
    } else {
        lines_of(texts.drop_last()) + seq!['\n'] + texts.last()
    }
}

/// The texts one below the other.
pub fn join_lines(texts: &Vec<String>) -> (r: String)
    ensures
        r@ == lines_of(text_views(texts@)),
{
    proof {
        reveal_strlit("\n");
        assert("\n"@ =~= seq!['\n']);
    }
    let ghost all = text_views(texts@);
    let mut r = String::new();
    let mut i: usize = 0;
    assert(all.take(0) =~= Seq::<Seq<char>>::empty());
    while i < texts.len()
        invariant
            i <= texts.len(),
            all == text_views(texts@),
            "\n"@ == seq!['\n'],
            r@ == lines_of(all.take(i as int)),
        decreases texts.len() - i,
    {
        proof {
            assert(all.take(i as int + 1).drop_last() =~= all.take(i as int));
            assert(all.take(i as int + 1).last() == all[i as int]);
            assert(all.take(i as int + 1)[0] == all[0]);
        }
        if i > 0 {
            r.append("\n");
        }
        r.append(texts[i].as_str());
        assert(r@ =~= lines_of(all.take(i as int + 1)));
        i += 1;
    }
    assert(all.take(texts.len() as int) =~= all);
    r
}

/// What `ping` answers.
pub fn ping() -> (r: String)
    ensures
        r@ == "Pong!"@,
{
    String::from_str("Pong!")
}

/// The question that keeps `url` for good: it is written among the links
/// already seen, with nothing kept beside it and no time at which it is
/// forgotten.
pub open spec fn write_question(url: Seq<char>) -> RequestView {
    RequestView::Put { key: seen_name(url), value: Seq::empty() }
}

/// The question that looks `url` up among the links already seen.
pub open spec fn read_question(url: Seq<char>) -> RequestView {
    RequestView::Get { key: seen_name(url) }
}

/// What is said once the store was asked to keep `url`: that it was added,
/// or the store's own word of what went wrong.
pub open spec fn write_text(url: Seq<char>, outcome: Result<(), Seq<char>>) -> Seq<char> {
    match outcome {
        Ok(_) => "Added "@ + url,
        Err(reason) => "Error: "@ + reason,
    }
}

/// What is said once the store was asked for `url`: that it was found where
/// the store answered with a text, that nothing came back where it answered
/// otherwise, or the store's own word of what went wrong.
pub open spec fn read_text(url: Seq<char>, outcome: Result<ReplyView, Seq<char>>) -> Seq<char> {
    match outcome {
        Ok(ReplyView::Value(_)) => "Found "@ + url,
        Ok(_) => "Error: response was nil"@,
        Err(reason) => "Error: "@ + reason,
    }
}

/// The outcome of a write, with the error as a mathematical value.
pub open spec fn outcome_view(outcome: Result<(), String>) -> Result<(), Seq<char>> {
    match outcome {
        Ok(_) => Ok(()),
        Err(reason) => Err(reason@),
    }
}

/// The outcome of a lookup, with its texts as mathematical values.
pub open spec fn lookup_view(outcome: Result<StoreReply, String>) -> Result<ReplyView, Seq<char>> {
    match outcome {
        Ok(reply) => Ok(reply@),
        Err(reason) => Err(reason@),
    }
}

/// The question that keeps `url` for good.
pub fn write_request(url: &str) -> (r: StoreRequest)
    ensures
        r@ == write_question(url@),
{
    StoreRequest::Put { key: seen_key(url), value: String::new() }
}

/// What is said once the store was asked to keep `url`.
pub fn write_answer(url: &str, outcome: &Result<(), String>) -> (r: String)
    ensures
        r@ == write_text(url@, outcome_view(*outcome)),
{
    match outcome {
        Ok(_) => joined("Added ", url),
        Err(reason) => joined("Error: ", reason.as_str()),
    }
}

/// What is said once the store was asked for `url`.
pub fn read_answer(url: &str, outcome: &Result<StoreReply, String>) -> (r: String)
    ensures
        r@ == read_text(url@, lookup_view(*outcome)),
{
    match outcome {
        Ok(StoreReply::Value(_)) => joined("Found ", url),
        Ok(_) => String::from_str("Error: response was nil"),
        Err(reason) => joined("Error: ", reason.as_str()),
    }
}

/// Writes `url` to a store held in memory, and says that it was added. With
/// the store out of reach nothing is written and nothing is said: the
/// fault is handed back.
pub fn write(store: &mut MemoryStore, url: &str, now: u64) -> (r: Result<String, Fault>)
    ensures
        final(store).in_reach() == old(store).in_reach(),
        old(store).in_reach() ==> {
            &&& final(store)@ == old(store)@.after(write_question(url@), now as nat)
            &&& r matches Ok(said) && said@ == write_text(url@, Ok(()))
        },
        !old(store).in_reach() ==> {
            &&& final(store)@ == old(store)@
            &&& r == Err::<String, Fault>(Fault::StoreUnavailable)
        },
{
    let request = write_request(url);
    match store.serve(&request, now) {
        StoreReply::Done => Ok(write_answer(url, &Ok(()))),
        _ => Err(Fault::StoreUnavailable),
    }
}

/// Looks `url` up in a store held in memory, and says whether it was found.
/// Nothing is written. With the store out of reach nothing is said: the
/// fault is handed back.
pub fn read(store: &mut MemoryStore, url: &str, now: u64) -> (r: Result<String, Fault>)
    ensures
        final(store).in_reach() == old(store).in_reach(),
        final(store)@ == old(store)@,
        old(store).in_reach() ==> {
            &&& r matches Ok(said) && said@ == read_text(
                url@,
                Ok(old(store)@.reply(read_question(url@), now as nat)),
            )
        },
        !old(store).in_reach() ==> r == Err::<String, Fault>(Fault::StoreUnavailable),
{
    let request = lookup_request(url);
    match store.serve(&request, now) {
        StoreReply::Unavailable => Err(Fault::StoreUnavailable),
        reply => Ok(read_answer(url, &Ok(reply))),
    }
}

/// What `imagine` answers for `prompt`: the addresses of the pictures, one
/// below the other, and the prompt in a code frame below them; or, shown to
/// the caller alone, why there are none.
pub open spec fn imagine_answer(
    prompt: Seq<char>,
    outcome: Result<Seq<Seq<char>>, Seq<char>>,
) -> CommandReplyView {
    match outcome {
        Ok(urls) => CommandReplyView::Content {
            text: lines_of(urls) + "\n ```"@ + prompt + "```"@,
            ephemeral: false,
        },
        Err(reason) => CommandReplyView::Content {
            text: "OpenAI: "@ + reason,
            ephemeral: true,
        },
    }
}

/// The outcome of asking for pictures, as a mathematical value.
pub open spec fn pictures_view(
    outcome: Result<Vec<String>, String>,
) -> Result<Seq<Seq<char>>, Seq<char>> {
    match outcome {
        Ok(urls) => Ok(text_views(urls@)),
        Err(reason) => Err(reason@),
    }
}

/// What `imagine` answers once the pictures have been asked for.
pub fn imagine(prompt: &str, outcome: &Result<Vec<String>, String>) -> (r: CommandReply)
    ensures
        r@ == imagine_answer(prompt@, pictures_view(*outcome)),
{
    match outcome {
        Ok(urls) => {
            let mut text = join_lines(urls);
            text.append("\n ```");
            text.append(prompt);
            text.append("```");
            CommandReply::Content { text, ephemeral: false }
        },
        Err(reason) => CommandReply::Content {
            text: joined("OpenAI: ", reason.as_str()),
            ephemeral: true,
        },
    }
}

/// What `epl_standing` answers: the league table in a code frame, under its
/// title and over the time of its last update; or, shown to the caller
/// alone, why there is none.
pub open spec fn standings_answer(outcome: Result<StandingsResponse, String>) -> CommandReplyView {
    match outcome {
        Ok(response) => CommandReplyView::Embed {
            title: "Premier League Standings"@,
            description: "```\n"@ + table_text(
                Some(header_cells()),
                table_cells(response.standing@),
            ) + "\n```"@,
            footer: "最後更新: "@ + response.updated_at@,
        },
        Err(reason) => CommandReplyView::Content { text: "Error: "@ + reason@, ephemeral: true },
    }
}

/// What `epl_standing` answers once the league table has been asked for.
pub fn epl_standing(outcome: &Result<StandingsResponse, String>) -> (r: CommandReply)
    ensures
        r@ == standings_answer(*outcome),
{
    match outcome {
        Ok(response) => {
            let table = format_standings(&response.standing);
            let mut description = String::from_str("```\n");
            description.append(table.as_str());
            description.append("\n```");
            CommandReply::Embed {
                title: String::from_str("Premier League Standings"),
                description,
                footer: joined("最後更新: ", response.updated_at.as_str()),
            }
        },
        Err(reason) => CommandReply::Content {
            text: joined("Error: ", reason.as_str()),
            ephemeral: true,
        },
    }
}

} // verus!

//! Links in the text of a message: finding them, and rewriting those that
//! lead to a post on Twitter.

use vstd::prelude::*;
use crate::outside::{
    pattern_find_all, pattern_matches, pattern_replace_all, regex_compiles, regex_find_all,
    regex_is_match, regex_replace_all,
};
use crate::text::{has_prefix, split_words, text_views, whitespace_words};

verus! {

/// What counts as a link: an optional scheme, a host name with a top-level
/// domain, an optional port and an optional path.
pub const URL_PATTERN: &'static str =
    r"(http(s)?://)?(www.)?([a-zA-Z0-9])+([\-\.]{1}[a-zA-Z0-9]+)*\.[a-zA-Z]{2,5}(:[0-9]{1,5})?(/[^\s]*)?";

/// What counts as a link to a post on Twitter: the site under either of its
/// names, a user and the number of the post. The site's name must begin a
/// word, so that a link which was rewritten already is not taken for one.
pub const TWITTER_PATTERN: &'static str =
    r"(https?://)?(?:www\.)?\b(twitter|x)\.com/([a-zA-Z0-9_]+)/status/([0-9]+)(?:\S+)?";

/// What a link to a post on Twitter is rewritten to: the same user and post
/// on the site that embeds the post.
pub const TWITTER_REPLACEMENT: &'static str = "https://vxtwitter.com/$3/status/$4";

/// The views of the texts in an optional list.
pub open spec fn optional_views(texts: Option<Vec<String>>) -> Option<Seq<Seq<char>>> {
    match texts {
        Some(list) => Some(text_views(list@)),
        None => None,
    }
}

/// The links of a text, given whether the text holds a link at all and the
/// links found in it: the links found, or nothing when it holds none.
pub open spec fn links_among(matched: bool, found: Seq<Seq<char>>) -> Option<Seq<Seq<char>>> {
    if matched {
        Some(found)
    } else {
        None
    }
}

/// The links of a text: those that the pattern of links finds in it, in the
/// order in which they stand, or nothing when it finds none, or when the
/// engine does not take the pattern.
pub open spec fn links_in(text: Seq<char>) -> Option<Seq<Seq<char>>> {
    links_among(
        regex_compiles(URL_PATTERN@) && regex_is_match(URL_PATTERN@, text),
        regex_find_all(URL_PATTERN@, text),
    )
}

/// The expression engine would not take a pattern.
#[derive(Clone, Copy, Debug, PartialEq, Eq, Structural)]
pub struct PatternRefused;

/// What the engine gave, with its own error taken for the library's.
fn engine_outcome<T>(outcome: Result<T, regex::Error>) -> (r: Result<T, PatternRefused>)
    ensures
        match outcome {
            Ok(value) => r == Ok::<T, PatternRefused>(value),
            Err(_) => r is Err,
        },
{
    match outcome {
        Ok(value) => Ok(value),
        Err(_) => Err(PatternRefused),
    }
}

/// Whether a text holds what a pattern describes, given what the engine
/// said of it: only where the engine took the pattern and found a match.
pub open spec fn found_match(outcome: Result<bool, PatternRefused>) -> bool {
    outcome == Ok::<bool, PatternRefused>(true)
}

/// The links of a text, given what the engine found in it: what it found,
/// in the same order, or nothing where it would not take the pattern.
pub open spec fn links_of_search(
    outcome: Result<Seq<Seq<char>>, PatternRefused>,
) -> Option<Seq<Seq<char>>> {
    match outcome {
        Ok(found) => Some(found),
        Err(_) => None,
    }
}

/// A text after rewriting, given what the engine made of it: the engine's
/// text, or the text as it was where the engine would not take the pattern.
pub open spec fn text_of_rewriting(
    outcome: Result<Seq<char>, PatternRefused>,
    text: Seq<char>,
) -> Seq<char> {
    match outcome {
        Ok(rewritten) => rewritten,
        Err(_) => text,
    }
}

/// The outcome of a search, with the texts found as mathematical values.
pub open spec fn search_view(
    outcome: Result<Vec<String>, PatternRefused>,
) -> Result<Seq<Seq<char>>, PatternRefused> {
    match outcome {
        Ok(found) => Ok(text_views(found@)),
        Err(refused) => Err(refused),
    }
}

/// The outcome of a rewriting, with the text as a mathematical value.
pub open spec fn rewriting_view(
    outcome: Result<String, PatternRefused>,
) -> Result<Seq<char>, PatternRefused> {
    match outcome {
        Ok(rewritten) => Ok(rewritten@),
        Err(refused) => Err(refused),
    }
}

/// Whether a text holds what a pattern describes, given what the engine
/// said of it.
pub fn match_found(outcome: Result<bool, PatternRefused>) -> (r: bool)
    ensures
        r == found_match(outcome),
{
    match outcome {
        Ok(matched) => matched,
        Err(_) => false,
    }
}

/// The links of a text, given what the engine found in it.
pub fn links_found(outcome: Result<Vec<String>, PatternRefused>) -> (r: Option<Vec<String>>)
    ensures
        optional_views(r) == links_of_search(search_view(outcome)),
        r matches Some(links) ==> outcome matches Ok(found) && links@.len() == found@.len(),
{
    match outcome {
        Ok(found) => Some(found),
        Err(_) => None,
    }
}

/// A text after rewriting, given what the engine made of it.
pub fn rewritten_text(outcome: Result<String, PatternRefused>, text: &str) -> (r: String)
    ensures
        r@ == text_of_rewriting(rewriting_view(outcome), text@),
{
    match outcome {
        Ok(rewritten) => rewritten,
        Err(_) => String::from_str(text),
    }
}

/// The links in `url`, in the order in which they stand, or `None` when
/// there is none. The engine is asked whether the text holds a link, and
/// only then for the links; a list that is handed out holds one link at
/// least.
pub fn extract_urls(url: String) -> (r: Option<Vec<String>>)
    ensures
        optional_views(r) == links_in(url@),
        r matches Some(found) ==> found@.len() >= 1,
{
    if match_found(engine_outcome(pattern_matches(URL_PATTERN, url.as_str()))) {
        links_found(engine_outcome(pattern_find_all(URL_PATTERN, url.as_str())))
    } else {
        None
    }
}

/// Whether a text holds a link to a post on Twitter: whether the engine
/// takes the pattern of such links and finds a match for it.
pub open spec fn holds_twitter_link(text: Seq<char>) -> bool {
    regex_compiles(TWITTER_PATTERN@) && regex_is_match(TWITTER_PATTERN@, text)
}

/// A text with each link to a post on Twitter rewritten; the text as it is
/// where the engine does not take the pattern of such links.
pub open spec fn with_twitter_links_rewritten(text: Seq<char>) -> Seq<char> {
    if regex_compiles(TWITTER_PATTERN@) {
        regex_replace_all(TWITTER_PATTERN@, text, TWITTER_REPLACEMENT@)
    } else {
        text
    }
}

/// Whether `url` holds a link to a post on Twitter.
pub fn is_twitter_url(url: &str) -> (r: bool)
    ensures
        r == holds_twitter_link(url@),
{
    match_found(engine_outcome(pattern_matches(TWITTER_PATTERN, url)))
}

/// `url` with each link to a post on Twitter rewritten.
pub fn replace_twitter_url_with_vxtwitter(url: &str) -> (r: String)
    ensures
        r@ == with_twitter_links_rewritten(url@),
{
    rewritten_text(
        engine_outcome(pattern_replace_all(TWITTER_PATTERN, url, TWITTER_REPLACEMENT)),
        url,
    )
}

/// What is posted in reply to a message, given whether its text holds a
/// link to a post on Twitter and the text with such links rewritten: the
/// rewritten text, or nothing where there is no such link.
pub open spec fn twitter_answer(holds_link: bool, rewritten: Seq<char>) -> Option<Seq<char>> {
    if holds_link {
        Some(rewritten)
    } else {
        None
    }
}

/// The view of an optional text.
pub open spec fn optional_view(text: Option<String>) -> Option<Seq<char>> {
    match text {
        Some(text) => Some(text@),
        None => None,
    }
}

/// What is posted in reply to a message, given whether its text holds a
/// link to a post on Twitter and the text with such links rewritten.
pub fn twitter_reply(holds_link: bool, rewritten: String) -> (r: Option<String>)
    ensures
        optional_view(r) == twitter_answer(holds_link, rewritten@),
{
    if holds_link {
        Some(rewritten)
    } else {
        None
    }
}

/// What is posted in reply to a message with the text `content`: the text
/// with its links to Twitter rewritten, if it holds one.
pub fn twitter_handler(content: &str) -> (r: Option<String>)
    ensures
        optional_view(r) == twitter_answer(
            holds_twitter_link(content@),
            with_twitter_links_rewritten(content@),
        ),
{
    let holds_link = is_twitter_url(content);
    if holds_link {
        twitter_reply(holds_link, replace_twitter_url_with_vxtwitter(content))
    } else {
        None
    }
}

/// The beginning by which a word is taken for a link that was written out
/// in full.
pub open spec fn http_prefix() -> Seq<char> {
    seq!['h', 't', 't', 'p']
}

/// Those of `words` that begin with `http`, in order.
pub open spec fn http_among(words: Seq<Seq<char>>) -> Seq<Seq<char>>
    decreases words.len(),
{
    if words.len() == 0 {
        Seq::empty()
    } else if http_prefix().is_prefix_of(words.last()) {
        http_among(words.drop_last()).push(words.last())
    } else {
        http_among(words.drop_last())
    }
}

/// Those of `words` that begin with `http`, in order.
pub fn keep_http_words(words: Vec<String>) -> (r: Vec<String>)
    ensures
        text_views(r@) == http_among(text_views(words@)),
{
    proof {
        reveal_strlit("http");
        assert("http"@ =~= http_prefix());
    }
    let ghost all = text_views(words@);
    let mut kept: Vec<String> = Vec::new();
    let mut i: usize = 0;
    assert(all.take(0) =~= Seq::<Seq<char>>::empty());
    assert(text_views(kept@) =~= Seq::<Seq<char>>::empty());
    while i < words.len()
        invariant
            i <= words.len(),
            all == text_views(words@),
            "http"@ == http_prefix(),
            text_views(kept@) == http_among(all.take(i as int)),
        decreases words.len() - i,
    {
        let ghost before = text_views(kept@);
        proof {
            assert(all.take(i as int + 1).drop_last() =~= all.take(i as int));
            assert(all.take(i as int + 1).last() == all[i as int]);
        }
        if has_prefix(words[i].as_str(), "http") {
            kept.push(words[i].clone());
            assert(text_views(kept@) =~= before.push(all[i as int]));
        }
        i += 1;
    }
    assert(all.take(words.len() as int) =~= all);
    kept
}

/// The words of `content` that begin with `http`, in order.
pub fn http_words(content: &str) -> (r: Vec<String>)
    ensures
        text_views(r@) == http_among(whitespace_words(content@)),
{
    keep_http_words(split_words(content))
}

} // verus!

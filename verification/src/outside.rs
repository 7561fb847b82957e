//! What the library takes from elsewhere without proof.
//!
//! Each item below states what a function of another crate returns. Verus
//! believes these statements; everything that is proved about searching
//! text with patterns and about drawing tables rests on them.

use vstd::prelude::*;
use crate::text::text_views;

verus! {

/// The error of `regex::Regex::new`.
#[verifier::external_type_specification]
#[verifier::external_body]
pub struct ExRegexError(regex::Error);

/// Whether `regex::Regex::new` takes `pattern`. It refuses a pattern that is
/// not valid, and one that compiles to more than its fixed size limit.
pub uninterp spec fn regex_compiles(pattern: Seq<char>) -> bool;

/// What `regex::Regex::is_match` returns for `text`, on the expression
/// compiled from `pattern`.
pub uninterp spec fn regex_is_match(pattern: Seq<char>, text: Seq<char>) -> bool;

/// The matches that `regex::Regex::find_iter` yields for `text`, each as the
/// text it covers, on the expression compiled from `pattern`.
pub uninterp spec fn regex_find_all(pattern: Seq<char>, text: Seq<char>) -> Seq<Seq<char>>;

/// What `regex::Regex::replace_all` returns for `text` and `replacement`, on
/// the expression compiled from `pattern`.
pub uninterp spec fn regex_replace_all(
    pattern: Seq<char>,
    text: Seq<char>,
    replacement: Seq<char>,
) -> Seq<char>;

/// A table of `comfy_table`.
#[verifier::external_type_specification]
#[verifier::external_body]
pub struct ExTable(comfy_table::Table);

/// The header that was set on a table, cell by cell, if one was set.
pub uninterp spec fn table_header(table: comfy_table::Table) -> Option<Seq<Seq<char>>>;

/// The rows that were added to a table, oldest first, each cell by cell.
pub uninterp spec fn table_rows(table: comfy_table::Table) -> Seq<Seq<Seq<char>>>;

/// The text that `comfy_table` draws for a table with the given header and
/// rows, in its default style and without a limit on its width.
pub uninterp spec fn table_text(
    header: Option<Seq<Seq<char>>>,
    rows: Seq<Seq<Seq<char>>>,
) -> Seq<char>;

/// Calls `comfy_table::Table::new`: a table without header and without
/// rows.
#[verifier::external_body]
pub(crate) fn new_table() -> (r: comfy_table::Table)
    ensures
        table_header(r) is None,
        table_rows(r) == Seq::<Seq<Seq<char>>>::empty(),
{
    comfy_table::Table::new()
}

/// Calls `comfy_table::Table::set_header` with one cell for each text:
/// the table then has that header, and the rows it had. A table keeps a
/// column for every cell it was ever given, so the header is set once only:
/// the columns that are drawn then follow from the header and the rows.
#[verifier::external_body]
pub(crate) fn set_table_header(table: &mut comfy_table::Table, cells: Vec<String>)
    requires
        table_header(*old(table)) is None,
    ensures
        table_header(*final(table)) == Some(text_views(cells@)),
        table_rows(*final(table)) == table_rows(*old(table)),
{
    table.set_header(cells);
}

/// Calls `comfy_table::Table::add_row` with one cell for each text: the
/// table then has that row after the rows it had, and the header it had.
#[verifier::external_body]
pub(crate) fn add_table_row(table: &mut comfy_table::Table, cells: Vec<String>)
    ensures
        table_rows(*final(table)) == table_rows(*old(table)).push(text_views(cells@)),
        table_header(*final(table)) == table_header(*old(table)),
{
    table.add_row(cells);
}

/// Writes a table out through its `Display` impl. Claims that the text
/// depends on the header and the rows alone, for a table whose header was
/// set once at most.
#[verifier::external_body]
pub(crate) fn draw_table(table: &comfy_table::Table) -> (r: String)
    ensures
        r@ == table_text(table_header(*table), table_rows(*table)),
{
    table.to_string()
}

/// Calls `regex::Regex::new` on `pattern` and `regex::Regex::is_match` on
/// the result. Claims that whether the pattern is taken depends on the
/// pattern alone, and that the answer depends on the pattern and the text
/// alone. Nothing is claimed about which patterns are taken or which texts
/// match.
#[verifier::external_body]
pub(crate) fn pattern_matches(pattern: &str, text: &str) -> (r: Result<bool, regex::Error>)
    ensures
        r is Ok == regex_compiles(pattern@),
        r matches Ok(matched) ==> matched == regex_is_match(pattern@, text@),
{
    let compiled = regex::Regex::new(pattern)?;
    Ok(compiled.is_match(text))
}

/// Calls `regex::Regex::new` on `pattern` and `regex::Regex::find_iter` on
/// the result, and hands out the text of each match, in the order in which
/// they are found. Claims that whether the pattern is taken depends on the
/// pattern alone, that the matches depend on the pattern and the text
/// alone, and that there is a match to hand out exactly where `is_match`
/// says that the text holds one.
#[verifier::external_body]
pub(crate) fn pattern_find_all(pattern: &str, text: &str) -> (r: Result<Vec<String>, regex::Error>)
    ensures
        r is Ok == regex_compiles(pattern@),
        r matches Ok(found) ==> text_views(found@) == regex_find_all(pattern@, text@),
        r matches Ok(found) ==> (found@.len() > 0) == regex_is_match(pattern@, text@),
{
    let compiled = regex::Regex::new(pattern)?;
    Ok(compiled.find_iter(text).map(|found| found.as_str().to_string()).collect())
}

/// Calls `regex::Regex::new` on `pattern` and `regex::Regex::replace_all` on
/// the result. Claims that whether the pattern is taken depends on the
/// pattern alone, and that the new text depends on the pattern, the text
/// and the replacement alone.
#[verifier::external_body]
pub(crate) fn pattern_replace_all(
    pattern: &str,
    text: &str,
    replacement: &str,
) -> (r: Result<String, regex::Error>)
    ensures
        r is Ok == regex_compiles(pattern@),
        r matches Ok(replaced) ==> replaced@ == regex_replace_all(
            pattern@,
            text@,
            replacement@,
        ),
{
    let compiled = regex::Regex::new(pattern)?;
    Ok(compiled.replace_all(text, replacement).into_owned())
}

} // verus!

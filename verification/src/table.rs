//! The result set as a table for the screen: a title, a header, and a row
//! with a duration and a name for each entry.

use crate::catalog::{videos, SessionModel, VideoModel, YoutubeVideo};
use crate::text::decimal_text;
use unicode_truncate::UnicodeTruncateStr;
use vstd::prelude::*;
use vstd::string::StringExecFns;
use vstd::utf8::is_ascii_chars;

verus! {

/// The columns that a duration takes.
pub const DURATION_COLUMNS: usize = 6;

/// The longest text that is handed to the padding.
pub const PADDING_LIMIT: usize = 0x0fff_ffff;

/// The share of the table's width that the column of durations takes, in
/// hundredths.
pub const DURATION_SHARE: u16 = 15;

/// The share of the table's width that the column of names takes, in
/// hundredths.
pub const NAME_SHARE: u16 = 85;

/// What `humantime::format_duration` writes for a duration of this many
/// whole seconds.
pub uninterp spec fn humantime_text(seconds: u64) -> Seq<char>;

/// What `unicode_pad` of `unicode_truncate` gives for `text`, padded on the
/// right to `width` columns, and cut to them where `truncate` is set.
pub uninterp spec fn padded_left(text: Seq<char>, width: usize, truncate: bool) -> Seq<char>;

/// The longest text that `humantime::format_duration` writes for whole
/// seconds.
pub const DURATION_WORDS_LIMIT: usize = 45;

/// `humantime::format_duration` on a duration of whole seconds, written out
/// through its `Display`. Taken on trust: the text depends on the number of
/// seconds alone. It is made of the counts of years, months, days, hours,
/// minutes and seconds, in digits, each with its unit in plain letters and
/// with single spaces between them; so it is plain ASCII, and the longest,
/// with twelve digits of years, has 45 characters.
#[verifier::external_body]
fn duration_text(seconds: u64) -> (text: String)
    ensures
        text@ == humantime_text(seconds),
        is_ascii_chars(text@),
        text@.len() <= DURATION_WORDS_LIMIT,
{
    humantime::format_duration(std::time::Duration::from_secs(seconds)).to_string()
}

/// `unicode_pad` of `unicode_truncate`, aligned to the left. Taken on trust:
/// the result depends on the arguments alone. The text is plain ASCII and of
/// bounded length, and the width is bounded: for other texts the crate's
/// count of columns need not add up, and a longer result need not fit a
/// `String`.
#[verifier::external_body]
fn pad_left(text: &str, width: usize, truncate: bool) -> (padded: String)
    requires
        is_ascii_chars(text@),
        text@.len() <= PADDING_LIMIT,
        width <= PADDING_LIMIT,
    ensures
        padded@ == padded_left(text@, width, truncate),
{
    text.unicode_pad(width, unicode_truncate::Alignment::Left, truncate).into_owned()
}

/// Whether a text can be handed to the padding.
pub open spec fn can_pad(text: Seq<char>) -> bool {
    is_ascii_chars(text) && text.len() <= PADDING_LIMIT
}

/// The cell that shows a duration, given the duration in words: the words
/// padded or cut to six columns, in square brackets, and a space.
pub open spec fn duration_cell(words: Seq<char>) -> Seq<char> {
    "["@ + padded_left(words, DURATION_COLUMNS, true) + "] "@
}

/// The cell that shows a duration, given the duration in words. The words
/// are such as can be handed to the padding: plain ASCII, and not longer than
/// the padding takes.
pub fn format_cell(words: &str) -> (cell: String)
    requires
        can_pad(words@),
    ensures
        cell@ == duration_cell(words@),
{
    let mut cell = String::from_str("[");
    let padded = pad_left(words, DURATION_COLUMNS, true);
    cell.append(padded.as_str());
    cell.append("] ");
    cell
}

/// One row of the table.
#[derive(Debug, Clone, PartialEq, Eq)]
pub struct TableRow {
    /// The duration of the entry, in its cell.
    pub duration: String,
    /// The title of the entry.
    pub name: String,
}

impl View for TableRow {
    type V = (Seq<char>, Seq<char>);

    open spec fn view(&self) -> (Seq<char>, Seq<char>) {
        (self.duration@, self.name@)
    }
}

/// What a list of rows holds.
pub open spec fn rows_model(rows: Seq<TableRow>) -> Seq<(Seq<char>, Seq<char>)> {
    rows.map_values(|r: TableRow| r@)
}

/// The row of an entry: its duration in its cell, and its title.
pub open spec fn row_of(video: VideoModel) -> (Seq<char>, Seq<char>) {
    (duration_cell(humantime_text(video.length_seconds)), video.title)
}

/// The rows of a result set, one for each entry and in their order.
pub open spec fn rows_of(items: Seq<VideoModel>) -> Seq<(Seq<char>, Seq<char>)> {
    items.map_values(|v: VideoModel| row_of(v))
}

/// The row of an entry.
pub fn table_row(video: &YoutubeVideo) -> (row: TableRow)
    ensures
        row@ == row_of(video@),
{
    let words = duration_text(video.length_seconds);
    TableRow { duration: format_cell(words.as_str()), name: video.title.clone() }
}

/// The rows of a result set.
pub fn table_rows(items: &Vec<YoutubeVideo>) -> (rows: Vec<TableRow>)
    ensures
        rows_model(rows@) == rows_of(videos(items@)),
{
    let mut rows: Vec<TableRow> = Vec::new();
    let mut i: usize = 0;
    while i < items.len()
        invariant
            i <= items@.len(),
            rows@.len() == i,
            forall|k: int| 0 <= k < i ==> (#[trigger] rows@[k])@ == row_of(items@[k]@),
        decreases items@.len() - i,
    {
        rows.push(table_row(&items[i]));
        i += 1;
    }
    assert(rows_model(rows@) =~= rows_of(videos(items@)));
    rows
}

/// The title of a page of results from the backend `domain`.
pub open spec fn page_title(page: nat, domain: Seq<char>) -> Seq<char> {
    "── Page "@ + decimal_text(page) + " ──┼─ "@ + "Tab/Shift+Tab switch pages"@
        + " ─┼─ "@ + domain + " ─────"@
}

/// The notice for an empty result set from the backend `domain`.
pub open spec fn empty_notice(domain: Seq<char>) -> Seq<char> {
    "Empty result.Probably "@ + domain + " is down."@
}

/// The names of the two columns.
pub fn column_names() -> (names: (String, String))
    ensures
        names.0@ == "Duration"@,
        names.1@ == "Name"@,
{
    ("Duration".to_owned(), "Name".to_owned())
}

/// What the table is to show.
#[derive(Debug, Clone, PartialEq, Eq)]
pub enum TableUpdate {
    /// Nothing new: the session has no backend to name.
    Unchanged,
    /// The result set is empty: one line that says so.
    Notice(String),
    /// A page of results.
    Page { title: String, rows: Vec<TableRow> },
}

/// What a table update holds.
pub enum TableModel {
    Unchanged,
    Notice(Seq<char>),
    Page { title: Seq<char>, rows: Seq<(Seq<char>, Seq<char>)> },
}

impl View for TableUpdate {
    type V = TableModel;

    open spec fn view(&self) -> TableModel {
        match *self {
            TableUpdate::Unchanged => TableModel::Unchanged,
            TableUpdate::Notice(text) => TableModel::Notice(text@),
            TableUpdate::Page { title, rows } => TableModel::Page {
                title: title@,
                rows: rows_model(rows@),
            },
        }
    }
}

/// The table for a session: nothing new while the backend has no name; a
/// notice where the result set is empty; else the page, titled with its
/// number and the backend's name, with one row for each entry.
pub open spec fn table_of(session: SessionModel) -> TableModel {
    match session.domain {
        None => TableModel::Unchanged,
        Some(domain) => if session.items.len() == 0 {
            TableModel::Notice(empty_notice(domain))
        } else {
            TableModel::Page { title: page_title(session.page, domain), rows: rows_of(session.items) }
        },
    }
}

} // verus!

//! The texts of the episode list: one line for each entry, and the title of
//! the panel, which names the file that the selected entry would be written
//! to.

use vstd::prelude::*;
use vstd::string::*;
use crate::entry::Entry;
use crate::filename::{destination_name, destination_of};
use crate::selection::SelectionStore;
use crate::text::{decimal_text, push_decimal};

verus! {

/// The day on which the instant `secs` seconds after 1970-01-01 00:00:00 UTC
/// falls, written as day, abbreviated English month and year (such as
/// `15 May 2015`); nothing where the calendar cannot hold the instant.
pub uninterp spec fn day_text(secs: int) -> Option<Seq<char>>;

/// Writes the day of a time of publication. This calls
/// `chrono::DateTime::from_timestamp` with no nanoseconds, which gives no
/// date for a number of seconds outside the calendar's range, and formats
/// the date it gives with `chrono::DateTime::format` by the pattern
/// `%d %b %Y`. The result depends on the number of seconds alone and is
/// taken on trust as `day_text`.
#[verifier::external_body]
fn format_day(secs: i64) -> (r: Option<String>)
    ensures
        match r {
            Some(s) => day_text(secs as int) == Some(s@),
            None => day_text(secs as int).is_none(),
        },
{
    match chrono::DateTime::from_timestamp(secs, 0) {
        Some(d) => Some(d.format("%d %b %Y").to_string()),
        None => None,
    }
}

/// The written day of an optional time of publication.
pub open spec fn published_text(published: Option<i64>) -> Option<Seq<char>> {
    match published {
        Some(secs) => day_text(secs as int),
        None => None,
    }
}

/// The line of the list for the entry at `index`: the index, the title and,
/// in brackets, the day of publication.
pub open spec fn label_text(index: nat, title: Option<Seq<char>>, day: Option<Seq<char>>) -> Seq<
    char,
> {
    decimal_text(index) + ": "@ + (match title {
        Some(t) => t,
        None => "Untitled Episode"@,
    }) + " ("@ + (match day {
        Some(d) => d,
        None => "Unknown date"@,
    }) + ")"@
}

/// The title of the panel for a selection.
pub open spec fn title_text(selected: Option<Entry>, index: nat) -> Seq<char> {
    match selected {
        Some(e) => if e.has_content() {
            destination_of(e.title_text(), index)
        } else {
            "No media found"@
        },
        None => "No episode selected"@,
    }
}

/// Writes the line of the list for the entry at `index` from its title and
/// the written day of its publication.
pub fn compose_label(index: usize, title: Option<&str>, day: Option<&str>) -> (r: String)
    ensures
        r@ == label_text(
            index as nat,
            match title {
                Some(t) => Some(t@),
                None => None,
            },
            match day {
                Some(d) => Some(d@),
                None => None,
            },
        ),
{
    let mut out = String::new();
    push_decimal(&mut out, index as u64);
    out.append(": ");
    match title {
        Some(t) => out.append(t),
        None => out.append("Untitled Episode"),
    }
    out.append(" (");
    match day {
        Some(d) => out.append(d),
        None => out.append("Unknown date"),
    }
    out.append(")");
    assert(Seq::<char>::empty() + decimal_text(index as nat) =~= decimal_text(index as nat));
    out
}

/// Writes the line of the list for `entry`, which stands at `index`.
pub fn item_label(index: usize, entry: &Entry) -> (r: String)
    ensures
        r@ == label_text(index as nat, entry.title_text(), published_text(entry.published)),
{
    let day: Option<String> = match entry.published {
        Some(secs) => format_day(secs),
        None => None,
    };
    let title = entry.title_str();
    match &day {
        Some(d) => compose_label(index, title, Some(d.as_str())),
        None => compose_label(index, title, None),
    }
}

/// Writes the lines of the list, one for each entry, in their order.
pub fn item_labels(store: &SelectionStore) -> (r: Vec<String>)
    ensures
        r@.len() == store.entries().len(),
        forall|i: int|
            0 <= i < r@.len() ==> (#[trigger] r@[i])@ == label_text(
                i as nat,
                store.entries()[i].title_text(),
                published_text(store.entries()[i].published),
            ),
{
    let mut out: Vec<String> = Vec::new();
    let n: usize = store.len();
    let mut i: usize = 0;
    while i < n
        invariant
            n == store.entries().len(),
            i <= n,
            out@.len() == i,
            forall|j: int|
                0 <= j < i ==> (#[trigger] out@[j])@ == label_text(
                    j as nat,
                    store.entries()[j].title_text(),
                    published_text(store.entries()[j].published),
                ),
        decreases n - i,
    {
        match store.get(i) {
            Some(e) => {
                out.push(item_label(i, e));
            },
            None => {},
        }
        i += 1;
    }
    out
}

/// Writes the title of the panel: the name of the file that the selected
/// entry would be written to, or why there is none.
pub fn panel_title(store: &SelectionStore) -> (r: String)
    requires
        store.wf(),
    ensures
        r@ == title_text(store.selected(), store.position()),
{
    match store.current() {
        Some(e) => {
            if e.has_media() {
                destination_name(e.title_str(), store.cursor())
            } else {
                String::from_str("No media found")
            }
        },
        None => String::from_str("No episode selected"),
    }
}

} // verus!

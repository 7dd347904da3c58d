//! Which display outputs count as connected.
//!
//! The display subsystem lists one entry per card and per output. An output
//! carries a status text. The driver reads the entries; the rules here pick
//! the connected outputs, in the order in which the entries came.

use vstd::prelude::*;
use crate::text::{contains_char, starts_with, texts, trimmed, trimmed_equals};

verus! {

/// One entry of the display subsystem's directory.
#[derive(Debug)]
pub struct DrmEntry {
    /// The entry's file name.
    pub name: String,
    /// Whether the entry is a directory.
    pub is_dir: bool,
    /// The text of the entry's status file, `None` where it cannot be read.
    pub status: Option<String>,
}

/// A `DrmEntry` with its texts as sequences of characters.
pub struct DrmEntryView {
    pub name: Seq<char>,
    pub is_dir: bool,
    pub status: Option<Seq<char>>,
}

impl View for DrmEntry {
    type V = DrmEntryView;

    open spec fn view(&self) -> DrmEntryView {
        DrmEntryView {
            name: self.name@,
            is_dir: self.is_dir,
            status: match self.status {
                Some(text) => Some(text@),
                None => None,
            },
        }
    }
}

/// The entries as views.
pub open spec fn entry_views(entries: Seq<DrmEntry>) -> Seq<DrmEntryView> {
    entries.map_values(|e: DrmEntry| e@)
}

/// The name is an output's: it does not begin with `card`, or it holds a
/// hyphen.
pub open spec fn is_connector_name(name: Seq<char>) -> bool {
    !"card"@.is_prefix_of(name) || name.contains('-')
}

/// The status text says `connected`, white space around it aside.
pub open spec fn is_connected_status(status: Seq<char>) -> bool {
    trimmed(status) == "connected"@
}

/// The entry is a connected output.
pub open spec fn is_connected(entry: DrmEntryView) -> bool {
    &&& entry.is_dir
    &&& is_connector_name(entry.name)
    &&& entry.status matches Some(text) && is_connected_status(text)
}

/// The names of the connected outputs among the entries, in their order.
pub open spec fn connected(entries: Seq<DrmEntryView>) -> Seq<Seq<char>>
    decreases entries.len(),
{
    if entries.len() == 0 {
        Seq::empty()
    } else if is_connected(entries.last()) {
        connected(entries.drop_last()).push(entries.last().name)
    } else {
        connected(entries.drop_last())
    }
}

/// Whether an entry of this name is an output, so that its status matters.
pub fn connector_name(name: &str) -> (r: bool)
    ensures
        r == is_connector_name(name@),
{
    !starts_with(name, "card") || contains_char(name, '-')
}

/// Whether a status text says that the output is connected.
pub fn connected_status(status: &str) -> (r: bool)
    ensures
        r == is_connected_status(status@),
{
    trimmed_equals(status, "connected")
}

/// Whether the entry is a connected output.
pub fn connected_entry(entry: &DrmEntry) -> (r: bool)
    ensures
        r == is_connected(entry@),
{
    if !entry.is_dir || !connector_name(entry.name.as_str()) {
        return false;
    }
    match &entry.status {
        Some(text) => connected_status(text.as_str()),
        None => false,
    }
}

/// The names of the connected outputs among `entries`, in their order.
///
/// No entries give no connectors: a directory that cannot be read is no
/// error here.
pub fn get_connected_connectors(entries: &Vec<DrmEntry>) -> (r: Vec<String>)
    ensures
        texts(r@) == connected(entry_views(entries@)),
{
    let mut connectors: Vec<String> = Vec::new();
    let mut i: usize = 0;
    while i < entries.len()
        invariant
            i <= entries@.len(),
            texts(connectors@) == connected(entry_views(entries@).take(i as int)),
        decreases entries@.len() - i,
    {
        let ghost views = entry_views(entries@);
        assert(views.take(i + 1).drop_last() =~= views.take(i as int));
        assert(views.take(i + 1).last() == entries@[i as int]@);
        if connected_entry(&entries[i]) {
            let name = entries[i].name.clone();
            let ghost before = connectors@;
            connectors.push(name);
            assert(texts(connectors@) =~= texts(before).push(name@));
        }
        i = i + 1;
    }
    assert(entry_views(entries@).take(entries@.len() as int) =~= entry_views(entries@));
    connectors
}

} // verus!

//! Entries: what a channel hands to the interface for one matched candidate.

use vstd::prelude::*;
use devicons::FileIcon;

verus! {

/// How the interface previews an entry.
#[derive(Clone, Copy, Debug, PartialEq, Eq, Structural)]
pub enum PreviewType {
    /// The entry is shown as it is.
    Basic,
    /// The entry names a file, which is shown around its line.
    Files,
}

/// One result of a channel, built anew for every query.
#[derive(Clone, Debug)]
pub struct Entry {
    /// The name that identifies the entry.
    pub name: String,
    /// The name that is shown, where it differs from `name`.
    pub display_name: Option<String>,
    /// The matched text.
    pub value: Option<String>,
    /// The parts of `value` to highlight, each from its start up to, not
    /// including, its end.
    pub value_match_ranges: Option<Vec<(u32, u32)>>,
    /// The icon of the file.
    pub icon: Option<FileIcon>,
    /// The line of the file that the entry stands for.
    pub line_number: Option<usize>,
    /// How the entry is previewed.
    pub preview_type: PreviewType,
}

impl Entry {
    /// The name under which the entry is shown: its display name, or its name
    /// where it has none.
    pub open spec fn shown_name(&self) -> Seq<char> {
        match self.display_name {
            Some(display_name) => display_name@,
            None => self.name@,
        }
    }

    /// An entry with a name and nothing else.
    pub fn new(name: String, preview_type: PreviewType) -> (entry: Entry)
        ensures
            entry.name == name,
            entry.display_name is None,
            entry.value is None,
            entry.value_match_ranges is None,
            entry.icon is None,
            entry.line_number is None,
            entry.preview_type == preview_type,
    {
        Entry {
            name,
            display_name: None,
            value: None,
            value_match_ranges: None,
            icon: None,
            line_number: None,
            preview_type,
        }
    }

    pub fn with_display_name(self, display_name: String) -> (entry: Entry)
        ensures
            entry == (Entry { display_name: Some(display_name), ..self }),
    {
        let mut entry = self;
        entry.display_name = Some(display_name);
        entry
    }

    pub fn with_value(self, value: String) -> (entry: Entry)
        ensures
            entry == (Entry { value: Some(value), ..self }),
    {
        let mut entry = self;
        entry.value = Some(value);
        entry
    }

    pub fn with_value_match_ranges(self, ranges: Vec<(u32, u32)>) -> (entry: Entry)
        ensures
            entry == (Entry { value_match_ranges: Some(ranges), ..self }),
    {
        let mut entry = self;
        entry.value_match_ranges = Some(ranges);
        entry
    }

    pub fn with_icon(self, icon: FileIcon) -> (entry: Entry)
        ensures
            entry == (Entry { icon: Some(icon), ..self }),
    {
        let mut entry = self;
        entry.icon = Some(icon);
        entry
    }

    pub fn with_line_number(self, line_number: usize) -> (entry: Entry)
        ensures
            entry == (Entry { line_number: Some(line_number), ..self }),
    {
        let mut entry = self;
        entry.line_number = Some(line_number);
        entry
    }

    /// The name under which the entry is shown.
    pub fn display_name(&self) -> (shown: &str)
        ensures
            shown@ == self.shown_name(),
    {
        match &self.display_name {
            Some(display_name) => display_name.as_str(),
            None => self.name.as_str(),
        }
    }
}

} // verus!

//! The lines of the configuration file: key/value entries that remember how
//! they were written, and text that is kept as it is.

use vstd::prelude::*;
use crate::errors::{DCtx, DError, DErrorType, DResult};
use crate::text::{
    chars_of, decimal, decimal_string, find, find_from, slice_of, string_of, trim, trim_chars,
    unquoted, unquoted_chars,
};

verus! {

/// What a key/value line holds.
pub struct EntryModel {
    /// Zero-based position of the line in the text it was read from.
    pub line: usize,
    /// The line as it was written; empty for an entry that was never read.
    pub original: Seq<char>,
    /// Whether the value was changed since the line was read.
    pub changed: bool,
    pub key: Seq<char>,
    pub value: Seq<char>,
}

/// The normal form of an entry: the key, `=` and the value in double
/// quotes.
pub open spec fn rewritten(key: Seq<char>, value: Seq<char>) -> Seq<char> {
    key + "=\""@ + value + "\""@
}

impl EntryModel {
    /// The line as it is written out: as it was read while unchanged,
    /// otherwise in the normal form.
    pub open spec fn text(self) -> Seq<char> {
        if !self.changed {
            self.original
        } else {
            rewritten(self.key, self.value)
        }
    }

    /// The entry after its value is set to `value`: untouched when the value
    /// is the same, otherwise changed and holding the new value.
    pub open spec fn updated(self, value: Seq<char>) -> EntryModel {
        if self.value == value {
            self
        } else {
            EntryModel { changed: true, value, ..self }
        }
    }
}

/// Whether a line has the `=` that parts key and value.
pub open spec fn has_separator(line: Seq<char>) -> bool {
    find(trim(line), '=') < trim(line).len()
}

/// The key of a line: what stands before the first `=` of the trimmed line.
pub open spec fn entry_key(line: Seq<char>) -> Seq<char> {
    trim(line).take(find(trim(line), '='))
}

/// The value of a line: what follows the first `=` of the trimmed line,
/// without any quote characters.
pub open spec fn entry_value(line: Seq<char>) -> Seq<char> {
    unquoted(trim(line).skip(find(trim(line), '=') + 1))
}

/// The entry that the text `original`, found at position `line`, denotes;
/// `None` when it has no separator.
pub open spec fn parse_entry(line: usize, original: Seq<char>) -> Option<EntryModel> {
    if has_separator(original) {
        Some(
            EntryModel {
                line,
                original,
                changed: false,
                key: entry_key(original),
                value: entry_value(original),
            },
        )
    } else {
        None
    }
}

/// The message for a line at zero-based position `line` that lacks its
/// separator. It names the line by its one-based number.
pub open spec fn missing_separator_message(line: usize) -> Seq<char> {
    "Expected '=' on line: "@ + decimal((line + 1) as nat)
}

/// The context of errors that arise while an entry is read.
pub const ENTRY_CONTEXT: &'static str = "reading a key/value line";

/// Whether `e` reports that the line at zero-based position `line` lacks
/// its separator.
pub open spec fn reports_missing_separator(e: DError, line: usize) -> bool {
    &&& e.context()@ == ENTRY_CONTEXT@
    &&& e.kind() matches DErrorType::GrubParse(msg) && msg@ == missing_separator_message(line)
}

/// A key/value line.
#[derive(Debug)]
pub struct KeyValue {
    pub line: usize,
    pub original: String,
    pub changed: bool,
    pub key: String,
    pub value: String,
}

impl View for KeyValue {
    type V = EntryModel;

    open spec fn view(&self) -> EntryModel {
        EntryModel {
            line: self.line,
            original: self.original@,
            changed: self.changed,
            key: self.key@,
            value: self.value@,
        }
    }
}

impl Clone for KeyValue {
    fn clone(&self) -> (copy: Self)
        ensures
            copy == *self,
    {
        Self {
            line: self.line,
            original: self.original.clone(),
            changed: self.changed,
            key: self.key.clone(),
            value: self.value.clone(),
        }
    }
}

impl KeyValue {
    /// Reads the entry that `original` denotes.
    pub fn new(line: usize, original: &str) -> (r: DResult<Self>)
        ensures
            match parse_entry(line, original@) {
                Some(entry) => r matches Ok(kv) && kv@ == entry,
                None => r matches Err(e) && reports_missing_separator(e, line),
            },
    {
        let mut kv = Self {
            line,
            changed: false,
            key: String::new(),
            value: String::new(),
            original: original.to_owned(),
        };
        match kv.parse() {
            Ok(()) => Ok(kv),
            Err(e) => Err(e),
        }
    }

    /// An entry made from a key and a value rather than read from a line. It
    /// counts as changed, so it is written out in the normal form.
    pub fn from_key_val(line: usize, key: &str, value: &str) -> (kv: Self)
        ensures
            kv@ == (EntryModel {
                line,
                original: Seq::empty(),
                changed: true,
                key: key@,
                value: value@,
            }),
    {
        Self {
            line,
            original: String::new(),
            changed: true,
            key: key.to_owned(),
            value: value.to_owned(),
        }
    }

    /// Reads key and value from the line as it was written. Without a
    /// separator the entry stays as it is.
    pub fn parse(&mut self) -> (r: DResult<()>)
        ensures
            final(self).line == old(self).line,
            final(self).original == old(self).original,
            final(self).changed == old(self).changed,
            match parse_entry(old(self).line, old(self).original@) {
                Some(entry) => r is Ok && final(self).key@ == entry.key && final(self).value@
                    == entry.value,
                None => {
                    &&& *final(self) == *old(self)
                    &&& r matches Err(e) && reports_missing_separator(e, old(self).line)
                },
            },
    {
        let chars = chars_of(self.original.as_str());
        let trimmed = trim_chars(&chars);
        let at = find_from(&trimmed, 0, '=');
        proof {
            assert(trimmed@.skip(0) =~= trimmed@);
        }
        if at >= trimmed.len() {
            let mut message = "Expected '=' on line: ".to_owned();
            let number = decimal_string(self.line as u128 + 1);
            message.append(number.as_str());
            return Err(
                DError::new(DCtx::new(ENTRY_CONTEXT.to_owned()), DErrorType::GrubParse(message)),
            );
        }
        let after = slice_of(&trimmed, at + 1, trimmed.len());
        let value = unquoted_chars(&after);
        self.key = string_of(&trimmed, 0, at);
        self.value = string_of(&value, 0, value.len());
        Ok(())
    }

    /// Sets the value. A value that differs from the present one marks the
    /// entry as changed; the same value leaves the entry as it is.
    pub fn update(&mut self, value: &str)
        ensures
            final(self)@ == old(self)@.updated(value@),
    {
        let new_value = value.to_owned();
        if !(self.value == new_value) {
            self.changed = true;
            self.value = new_value;
        }
    }
}

/// Writes the line out, keeping what was read where nothing changed.
///
/// The conversion is described by the contract of `from` itself, since a
/// specification cannot build a `String`.
impl From<&KeyValue> for String {
    fn from(value: &KeyValue) -> (s: String)
        ensures
            s@ == value@.text(),
    {
        if !value.changed {
            value.original.clone()
        } else {
            let mut s = value.key.clone();
            s.append("=\"");
            s.append(value.value.as_str());
            s.append("\"");
            s
        }
    }
}

impl vstd::std_specs::convert::FromSpecImpl<&KeyValue> for String {
    open spec fn obeys_from_spec() -> bool {
        false
    }

    open spec fn from_spec(value: &KeyValue) -> String {
        value.original
    }
}

impl From<KeyValue> for String {
    fn from(value: KeyValue) -> (s: String)
        ensures
            s@ == value@.text(),
    {
        if !value.changed {
            value.original
        } else {
            String::from(&value)
        }
    }
}

impl vstd::std_specs::convert::FromSpecImpl<KeyValue> for String {
    open spec fn obeys_from_spec() -> bool {
        false
    }

    open spec fn from_spec(value: KeyValue) -> String {
        value.original
    }
}

/// What a line of the configuration file holds.
pub enum LineModel {
    /// A key/value entry.
    Entry(EntryModel),
    /// A blank line or a comment, as it was written.
    Text(Seq<char>),
}

impl LineModel {
    /// The line as it is written out.
    pub open spec fn text(self) -> Seq<char> {
        match self {
            LineModel::Entry(entry) => entry.text(),
            LineModel::Text(raw) => raw,
        }
    }

    /// Whether the line is an entry for `key`.
    pub open spec fn has_key(self, key: Seq<char>) -> bool {
        self matches LineModel::Entry(entry) && entry.key == key
    }
}

/// A line of the configuration file.
#[derive(Debug)]
pub enum GrubLine {
    KeyValue(KeyValue),
    String { raw_line: String },
}

impl View for GrubLine {
    type V = LineModel;

    open spec fn view(&self) -> LineModel {
        match self {
            GrubLine::KeyValue(kv) => LineModel::Entry(kv@),
            GrubLine::String { raw_line } => LineModel::Text(raw_line@),
        }
    }
}

impl Clone for GrubLine {
    fn clone(&self) -> (copy: Self)
        ensures
            copy == *self,
    {
        match self {
            GrubLine::KeyValue(kv) => GrubLine::KeyValue(kv.clone()),
            GrubLine::String { raw_line } => GrubLine::String { raw_line: raw_line.clone() },
        }
    }
}

/// Writes the line out: an entry as [`EntryModel::text`] says, other text
/// as it was read.
impl From<&GrubLine> for String {
    fn from(value: &GrubLine) -> (s: String)
        ensures
            s@ == value@.text(),
    {
        match value {
            GrubLine::KeyValue(kv) => String::from(kv),
            GrubLine::String { raw_line } => raw_line.clone(),
        }
    }
}

impl vstd::std_specs::convert::FromSpecImpl<&GrubLine> for String {
    open spec fn obeys_from_spec() -> bool {
        false
    }

    open spec fn from_spec(value: &GrubLine) -> String {
        match value {
            GrubLine::KeyValue(kv) => kv.original,
            GrubLine::String { raw_line } => *raw_line,
        }
    }
}

impl From<GrubLine> for String {
    fn from(value: GrubLine) -> (s: String)
        ensures
            s@ == value@.text(),
    {
        match value {
            GrubLine::KeyValue(kv) => String::from(kv),
            GrubLine::String { raw_line } => raw_line,
        }
    }
}

impl vstd::std_specs::convert::FromSpecImpl<GrubLine> for String {
    open spec fn obeys_from_spec() -> bool {
        false
    }

    open spec fn from_spec(value: GrubLine) -> String {
        match value {
            GrubLine::KeyValue(kv) => kv.original,
            GrubLine::String { raw_line } => raw_line,
        }
    }
}

} // verus!

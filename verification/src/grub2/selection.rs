//! The boot menu with its selection: the entry that the environment text
//! names as the saved one, by its position or by its name.

use vstd::prelude::*;
use crate::errors::{DCtx, DError, DErrorType, DResult};
use crate::grub2::bootentry::{entry_models, BootEntryModel, GrubBootEntry};
use crate::grub2::menu::{menu_entries, menu_uses_patterns, reports_invalid_pattern};
use crate::text::{
    chars_of, find, find_from, has_prefix, index_of_value, parse_index, same_text, slice_of, split,
    split_chars, trim, trim_chars, views,
};

verus! {

/// The context of errors that arise while the selection is read.
pub const SELECTION_CONTEXT: &'static str = "reading the saved boot entry";

/// Why the selection cannot be read.
pub enum SelectionError {
    /// The line that names the saved entry has no `=`.
    MissingSeparator,
    /// Nothing but white space follows the `=`.
    MissingValue,
}

/// The boot menu and its selection.
pub struct CatalogModel {
    pub entries: Seq<BootEntryModel>,
    pub selected: Option<BootEntryModel>,
}

/// The first of the lines that starts with `saved_entry`.
pub open spec fn saved_line(lines: Seq<Seq<char>>) -> Option<Seq<char>>
    decreases lines.len(),
{
    if lines.len() == 0 {
        None
    } else if "saved_entry"@.is_prefix_of(lines[0]) {
        Some(lines[0])
    } else {
        saved_line(lines.drop_first())
    }
}

/// The value that a line assigns: what follows its first `=`, trimmed.
pub open spec fn saved_value(line: Seq<char>) -> Result<Seq<char>, SelectionError> {
    let at = find(line, '=');
    if at >= line.len() {
        Err(SelectionError::MissingSeparator)
    } else if trim(line.skip(at + 1)).len() == 0 {
        Err(SelectionError::MissingValue)
    } else {
        Ok(trim(line.skip(at + 1)))
    }
}

/// The first of the entries with the given name.
pub open spec fn first_named(entries: Seq<BootEntryModel>, name: Seq<char>) -> Option<BootEntryModel>
    decreases entries.len(),
{
    if entries.len() == 0 {
        None
    } else if entries[0].entry == name {
        Some(entries[0])
    } else {
        first_named(entries.drop_first(), name)
    }
}

/// The entry that a value selects: the one at that position, counted from
/// zero, if the value is a number, otherwise the first with that name.
pub open spec fn select(entries: Seq<BootEntryModel>, value: Seq<char>) -> Option<BootEntryModel> {
    match parse_index(value) {
        Some(at) => if at < entries.len() {
            Some(entries[at as int])
        } else {
            None
        },
        None => first_named(entries, value),
    }
}

/// The selection that an environment text makes among the entries: none
/// where no line names the saved entry.
pub open spec fn selection(entries: Seq<BootEntryModel>, env: Seq<char>) -> Result<
    Option<BootEntryModel>,
    SelectionError,
> {
    match saved_line(split(env, '\n')) {
        None => Ok(None),
        Some(line) => match saved_value(line) {
            Ok(value) => Ok(select(entries, value)),
            Err(e) => Err(e),
        },
    }
}

/// The message that reports why the selection cannot be read.
pub open spec fn selection_message(error: SelectionError) -> Seq<char> {
    match error {
        SelectionError::MissingSeparator => "Malformed grubenv. Expected '=' after saved_entry"@,
        SelectionError::MissingValue => "Malformed grubenv. Expected value after saved_entry"@,
    }
}

/// Whether `e` reports that the selection cannot be read for the reason
/// `error`.
pub open spec fn reports_selection_error(e: DError, error: SelectionError) -> bool {
    &&& e.context()@ == SELECTION_CONTEXT@
    &&& e.kind() matches DErrorType::GrubParse(msg) && msg@ == selection_message(error)
}

/// `first_named` finds an entry of the sequence that has the name, and
/// no entry before it has.
pub proof fn lemma_first_named(entries: Seq<BootEntryModel>, name: Seq<char>)
    ensures
        match first_named(entries, name) {
            Some(found) => exists|i: int|
                0 <= i < entries.len() && #[trigger] entries[i] == found && found.entry == name && forall|j: int|
                    0 <= j < i ==> (#[trigger] entries[j]).entry != name,
            None => forall|j: int| 0 <= j < entries.len() ==> (#[trigger] entries[j]).entry != name,
        },
    decreases entries.len(),
{
    if entries.len() > 0 && entries[0].entry != name {
        let rest = entries.drop_first();
        lemma_first_named(rest, name);
        match first_named(rest, name) {
            Some(found) => {
                let i = choose|i: int|
                    0 <= i < rest.len() && #[trigger] rest[i] == found && found.entry == name && forall|j: int|
                        0 <= j < i ==> (#[trigger] rest[j]).entry != name;
                assert forall|j: int| 0 <= j < i + 1 implies (#[trigger] entries[j]).entry != name by {
                    if j > 0 {
                        assert(entries[j] == rest[j - 1]);
                    }
                }
            },
            None => {
                assert forall|j: int| 0 <= j < entries.len() implies (#[trigger] entries[j]).entry != name by {
                    if j > 0 {
                        assert(entries[j] == rest[j - 1]);
                    }
                }
            },
        }
    }
}

/// Whatever is selected is one of the entries.
pub proof fn lemma_selected_is_listed(entries: Seq<BootEntryModel>, value: Seq<char>)
    ensures
        select(entries, value) matches Some(found) ==> entries.contains(found),
{
    lemma_first_named(entries, value);
}

/// A number selects the entry at that position, counted from zero in the
/// order in which the entries were found; a number that is no position
/// selects nothing.
pub proof fn lemma_select_by_index(entries: Seq<BootEntryModel>, value: Seq<char>)
    requires
        parse_index(value) is Some,
    ensures
        select(entries, value) == if parse_index(value)->Some_0 < entries.len() {
            Some(entries[parse_index(value)->Some_0 as int])
        } else {
            None
        },
{
}

/// The boot menu: its entries in the order in which they were found, and
/// the entry that is selected, if any.
pub struct GrubBootEntries {
    entries: Vec<GrubBootEntry>,
    selected: Option<GrubBootEntry>,
}

impl View for GrubBootEntries {
    type V = CatalogModel;

    closed spec fn view(&self) -> CatalogModel {
        CatalogModel {
            entries: entry_models(self.entries@),
            selected: match self.selected {
                Some(entry) => Some(entry@),
                None => None,
            },
        }
    }
}

impl GrubBootEntries {
    #[verifier::type_invariant]
    spec fn selected_is_listed(self) -> bool {
        self.selected matches Some(entry) ==> entry_models(self.entries@).contains(entry@)
    }

    /// Picks the entry that `value` selects.
    fn pick(entries: &Vec<GrubBootEntry>, value: &Vec<char>) -> (picked: Option<GrubBootEntry>)
        ensures
            match select(entry_models(entries@), value@) {
                Some(found) => picked matches Some(entry) && entry@ == found,
                None => picked is None,
            },
    {
        let ghost all = entry_models(entries@);
        match index_of_value(value) {
            Some(at) => {
                if at < entries.len() {
                    Some(entries[at].clone())
                } else {
                    None
                }
            },
            None => {
                let mut i: usize = 0;
                proof {
                    assert(all.skip(0) =~= all);
                }
                while i < entries.len()
                    invariant
                        i <= entries.len(),
                        all == entry_models(entries@),
                        parse_index(value@) is None,
                        first_named(all, value@) == first_named(all.skip(i as int), value@),
                    decreases entries.len() - i,
                {
                    proof {
                        assert(all.skip(i as int).drop_first() =~= all.skip(i + 1));
                    }
                    if same_text(value, entries[i].entry()) {
                        return Some(entries[i].clone());
                    }
                    i += 1;
                }
                None
            },
        }
    }

    /// The boot menu of the given entries, with the entry that the
    /// environment text `env` selects among them.
    ///
    /// An environment text without a line for the saved entry, or with a
    /// value that fits no entry, selects nothing. A line for the saved entry
    /// without `=`, or without a value, is an error.
    pub fn with_selection(entries: Vec<GrubBootEntry>, env: &str) -> (r: DResult<Self>)
        ensures
            match selection(entry_models(entries@), env@) {
                Ok(selected) => r matches Ok(catalog) && catalog@ == (CatalogModel {
                    entries: entry_models(entries@),
                    selected,
                }),
                Err(error) => r matches Err(e) && reports_selection_error(e, error),
            },
    {
        let chars = chars_of(env);
        let lines = split_chars(&chars, '\n');
        let ghost all = split(env@, '\n');
        let mut i: usize = 0;
        proof {
            assert(all.skip(0) =~= all);
        }
        while i < lines.len() && !has_prefix(&lines[i], "saved_entry")
            invariant
                i <= lines.len(),
                views(lines@) == all,
                saved_line(all) == saved_line(all.skip(i as int)),
            decreases lines.len() - i,
        {
            proof {
                assert(all.skip(i as int).drop_first() =~= all.skip(i + 1));
            }
            i += 1;
        }
        if i >= lines.len() {
            return Ok(Self { entries, selected: None });
        }
        let line = &lines[i];
        proof {
            assert(line@.skip(0) =~= line@);
        }
        let at = find_from(line, 0, '=');
        if at >= line.len() {
            return Err(
                DError::new(
                    DCtx::new(SELECTION_CONTEXT.to_owned()),
                    DErrorType::GrubParse("Malformed grubenv. Expected '=' after saved_entry".to_owned()),
                ),
            );
        }
        let after = slice_of(line, at + 1, line.len());
        let value = trim_chars(&after);
        if value.len() == 0 {
            return Err(
                DError::new(
                    DCtx::new(SELECTION_CONTEXT.to_owned()),
                    DErrorType::GrubParse("Malformed grubenv. Expected value after saved_entry".to_owned()),
                ),
            );
        }
        let selected = Self::pick(&entries, &value);
        proof {
            lemma_selected_is_listed(entry_models(entries@), value@);
        }
        Ok(Self { entries, selected })
    }

    /// The boot menu that the menu source `menu` declares, with the entry
    /// that the environment text `env` selects: the entries that
    /// [`GrubBootEntry::parse_entries`] finds, with the selection that
    /// [`GrubBootEntries::with_selection`] makes among them.
    ///
    /// It fails where the selection cannot be read, and otherwise only if a
    /// pattern is refused while the menu source is read.
    pub fn new(menu: &str, env: &str) -> (r: DResult<Self>)
        ensures
            match r {
                Ok(catalog) => selection(menu_entries(menu@), env@) matches Ok(selected) && catalog@ == (
                CatalogModel { entries: menu_entries(menu@), selected }),
                Err(e) => reports_invalid_pattern(e) || (selection(menu_entries(menu@), env@) matches Err(
                    error,
                ) && reports_selection_error(e, error)),
            },
            !menu_uses_patterns(menu@) ==> match selection(menu_entries(menu@), env@) {
                Ok(_) => r is Ok,
                Err(error) => r matches Err(e) && reports_selection_error(e, error),
            },
    {
        match GrubBootEntry::parse_entries(menu) {
            Ok(entries) => Self::with_selection(entries, env),
            Err(e) => Err(e),
        }
    }

    /// The names of the entries, in order.
    pub fn entry_names(&self) -> (names: Vec<&str>)
        ensures
            names@.len() == self@.entries.len(),
            forall|i: int| 0 <= i < names@.len() ==> (#[trigger] names@[i])@ == self@.entries[i].entry,
    {
        let mut names: Vec<&str> = Vec::new();
        let mut i: usize = 0;
        while i < self.entries.len()
            invariant
                i <= self.entries.len(),
                names@.len() == i,
                forall|j: int| 0 <= j < i ==> (#[trigger] names@[j])@ == self.entries@[j]@.entry,
            decreases self.entries.len() - i,
        {
            names.push(self.entries[i].entry());
            i += 1;
        }
        names
    }

    /// The entries, in the order in which they were found.
    pub fn entries(&self) -> (entries: &[GrubBootEntry])
        ensures
            entry_models(entries@) == self@.entries,
    {
        self.entries.as_slice()
    }

    /// The name of the selected entry. Where there is one, it is the name
    /// of one of the entries.
    pub fn selected(&self) -> (name: Option<&str>)
        ensures
            match self@.selected {
                Some(entry) => name matches Some(n) && n@ == entry.entry && self@.entries.contains(entry),
                None => name is None,
            },
    {
        proof {
            use_type_invariant(self);
        }
        if let Some(selected) = &self.selected {
            Some(selected.entry())
        } else {
            None
        }
    }
}

} // verus!

//! The menu source, line by line: what each line says, and what the
//! lines declare when they are read in order.
//!
//! Entries and submenus both end with a closing brace, and the braces alone
//! do not tell which of the two one of them ends. The reader therefore keeps
//! the submenus that are open and whether the block of an entry is open.

use vstd::prelude::*;
use crate::errors::{DError, DErrorType};
use crate::grub2::bootentry::{
    clone_strings, entry_models, texts, BootEntryModel, GrubBootEntry,
};
use crate::text::{has_prefix, split, string_of, trim, trim_chars};

verus! {

/// The pattern that finds the name of an entry in a line that declares one.
pub const ENTRY_PATTERN: &'static str = "menuentry\\s+'([^']+)";

/// The pattern that finds the name of a submenu in a line that opens one.
pub const SUBMENU_PATTERN: &'static str = "submenu\\s+'([^']+)";

/// The context of errors that arise while the menu source is read.
pub const MENU_CONTEXT: &'static str = "reading the boot menu";

/// Trusted: the error of `regex::Regex::new`. Nothing is read from it.
#[verifier::external_type_specification]
#[verifier::external_body]
pub struct ExRegexError(regex::Error);

/// The text of capture group 1 in the leftmost match of `pattern` in
/// `haystack`, as `regex::Regex::captures` finds it; `None` where the
/// pattern does not match, or matches without that group.
pub uninterp spec fn regex_first_group(pattern: Seq<char>, haystack: Seq<char>) -> Option<Seq<char>>;

/// The text that an optional string holds.
pub open spec fn text_of(found: Option<String>) -> Option<Seq<char>> {
    match found {
        Some(s) => Some(s@),
        None => None,
    }
}

/// Trusted: compiles `pattern` with `regex::Regex::new` and searches
/// `haystack` with `regex::Regex::captures`; from the match it takes the
/// text of group 1, by `Captures::get` and `Match::as_str`.
///
/// The contract claims that what a compiled pattern finds depends on the
/// pattern and the haystack alone, and refers to it as
/// [`regex_first_group`]. It leaves open when a pattern is refused: the
/// limit on the size of a compiled pattern is the machine's.
#[verifier::external_body]
fn first_group(pattern: &str, haystack: &str) -> (r: Result<Option<String>, regex::Error>)
    ensures
        r matches Ok(found) ==> text_of(found) == regex_first_group(pattern@, haystack@),
{
    let re = regex::Regex::new(pattern)?;
    let found = match re.captures(haystack) {
        Some(caps) => match caps.get(1) {
            Some(group) => Some(group.as_str().to_string()),
            None => None,
        },
        None => None,
    };
    Ok(found)
}

/// What a line of the menu source says.
pub enum MenuLineModel {
    /// A closing brace.
    Close,
    /// The declaration of an entry, with its name where one was found.
    Entry(Option<Seq<char>>),
    /// The opening of a submenu, with its name where one was found.
    Submenu(Option<Seq<char>>),
    /// Anything else.
    Other,
}

/// What a line of the menu source says.
#[derive(Debug)]
pub enum MenuLine {
    Close,
    Entry(Option<String>),
    Submenu(Option<String>),
    Other,
}

impl View for MenuLine {
    type V = MenuLineModel;

    open spec fn view(&self) -> MenuLineModel {
        match self {
            MenuLine::Close => MenuLineModel::Close,
            MenuLine::Entry(name) => MenuLineModel::Entry(text_of(*name)),
            MenuLine::Submenu(name) => MenuLineModel::Submenu(text_of(*name)),
            MenuLine::Other => MenuLineModel::Other,
        }
    }
}

/// What has been read of a menu source: the entries found so far, the
/// submenus that are open, and whether the block of an entry is open.
pub struct MenuModel {
    pub entries: Seq<BootEntryModel>,
    pub submenus: Seq<Seq<char>>,
    pub entry_open: bool,
}

/// The state before any line is read.
pub open spec fn menu_start() -> MenuModel {
    MenuModel { entries: Seq::empty(), submenus: Seq::empty(), entry_open: false }
}

/// The state after one more line.
///
/// A closing brace ends the block of an entry if one is open, and otherwise
/// the innermost submenu. An entry opens its block, and is recorded with the
/// submenus open at that moment if its name was found. A submenu whose name
/// was found is opened.
pub open spec fn menu_step(state: MenuModel, line: MenuLineModel) -> MenuModel {
    match line {
        MenuLineModel::Close => if state.entry_open {
            MenuModel { entry_open: false, ..state }
        } else if state.submenus.len() > 0 {
            MenuModel { submenus: state.submenus.drop_last(), ..state }
        } else {
            state
        },
        MenuLineModel::Entry(Some(name)) => MenuModel {
            entries: state.entries.push(BootEntryModel { entry: name, submenus: state.submenus }),
            entry_open: true,
            ..state
        },
        MenuLineModel::Entry(None) => MenuModel { entry_open: true, ..state },
        MenuLineModel::Submenu(Some(name)) => MenuModel { submenus: state.submenus.push(name), ..state },
        MenuLineModel::Submenu(None) => state,
        MenuLineModel::Other => state,
    }
}

/// The state after the lines, read in order from `state`.
pub open spec fn menu_run(state: MenuModel, lines: Seq<MenuLineModel>) -> MenuModel
    decreases lines.len(),
{
    if lines.len() == 0 {
        state
    } else {
        menu_step(menu_run(state, lines.drop_last()), lines.last())
    }
}

/// What a line of the menu source says. The line is trimmed first. A line
/// that is a closing brace and no more closes a block; a line that starts
/// with one of the two keywords is searched for a name with that keyword's
/// pattern.
pub open spec fn classify_line(line: Seq<char>) -> MenuLineModel {
    let trimmed = trim(line);
    if trimmed == seq!['}'] {
        MenuLineModel::Close
    } else if "menuentry"@.is_prefix_of(trimmed) {
        MenuLineModel::Entry(regex_first_group(ENTRY_PATTERN@, trimmed))
    } else if "submenu"@.is_prefix_of(trimmed) {
        MenuLineModel::Submenu(regex_first_group(SUBMENU_PATTERN@, trimmed))
    } else {
        MenuLineModel::Other
    }
}

/// What each line of a menu source says.
pub open spec fn classify_lines(lines: Seq<Seq<char>>) -> Seq<MenuLineModel> {
    lines.map_values(|line: Seq<char>| classify_line(line))
}

/// The entries that a menu source declares, in the order in which they are
/// found.
pub open spec fn menu_entries(source: Seq<char>) -> Seq<BootEntryModel> {
    menu_run(menu_start(), classify_lines(split(source, '\n'))).entries
}

/// Whether a line is searched with one of the two patterns: trimmed, it
/// starts with one of the two keywords.
pub open spec fn uses_pattern(line: Seq<char>) -> bool {
    "menuentry"@.is_prefix_of(trim(line)) || "submenu"@.is_prefix_of(trim(line))
}

/// Whether any line of a menu source is searched with a pattern.
pub open spec fn menu_uses_patterns(source: Seq<char>) -> bool {
    exists|i: int| 0 <= i < split(source, '\n').len() && uses_pattern(#[trigger] split(source, '\n')[i])
}

/// Whether `e` reports that a pattern was refused.
pub open spec fn reports_invalid_pattern(e: DError) -> bool {
    &&& e.context()@ == MENU_CONTEXT@
    &&& e.kind() matches DErrorType::GrubParse(msg) && msg@ == "Invalid regex"@
}

/// An entry at the top, then a submenu with two entries, each closed by
/// its brace: three entries are found, the first with no submenu and so
/// with its name as its path, the other two in the submenu and so with the
/// name of the submenu, `>` and their own name as their path.
pub proof fn lemma_entries_nest(top: Seq<char>, submenu: Seq<char>, first: Seq<char>, second: Seq<char>)
    ensures
        ({
            let found = menu_run(
                menu_start(),
                seq![
                    MenuLineModel::Entry(Some(top)),
                    MenuLineModel::Close,
                    MenuLineModel::Submenu(Some(submenu)),
                    MenuLineModel::Entry(Some(first)),
                    MenuLineModel::Close,
                    MenuLineModel::Entry(Some(second)),
                    MenuLineModel::Close,
                    MenuLineModel::Close,
                ],
            );
            &&& found.entries.len() == 3
            &&& found.entries[0].entry == top && found.entries[0].full_path() == top
            &&& found.entries[1].entry == first && found.entries[1].full_path() == submenu + seq!['>'] + first
            &&& found.entries[2].entry == second && found.entries[2].full_path() == submenu + seq!['>']
                + second
            &&& found.submenus.len() == 0 && !found.entry_open
        }),
{
    reveal_with_fuel(menu_run, 9);
}

/// Reads a menu source line by line.
pub struct MenuParser {
    entries: Vec<GrubBootEntry>,
    submenus: Vec<String>,
    entry_open: bool,
}

impl View for MenuParser {
    type V = MenuModel;

    closed spec fn view(&self) -> MenuModel {
        MenuModel {
            entries: entry_models(self.entries@),
            submenus: texts(self.submenus@),
            entry_open: self.entry_open,
        }
    }
}

impl MenuParser {
    pub fn new() -> (parser: Self)
        ensures
            parser@ == menu_start(),
    {
        let parser = Self { entries: Vec::new(), submenus: Vec::new(), entry_open: false };
        proof {
            assert(entry_models(parser.entries@) =~= Seq::<BootEntryModel>::empty());
            assert(texts(parser.submenus@) =~= Seq::<Seq<char>>::empty());
        }
        parser
    }

    /// Takes in what one more line says.
    pub fn step(&mut self, line: MenuLine)
        ensures
            final(self)@ == menu_step(old(self)@, line@),
    {
        let ghost before = self@;
        match line {
            MenuLine::Close => {
                if self.entry_open {
                    self.entry_open = false;
                } else if self.submenus.len() > 0 {
                    self.submenus.pop();
                    proof {
                        assert(texts(self.submenus@) =~= before.submenus.drop_last());
                    }
                }
            },
            MenuLine::Entry(name) => {
                self.entry_open = true;
                match name {
                    Some(name) => {
                        let entry = GrubBootEntry::new(name, clone_strings(&self.submenus));
                        self.entries.push(entry);
                        proof {
                            assert(entry_models(self.entries@) =~= before.entries.push(entry@));
                        }
                    },
                    None => {},
                }
            },
            MenuLine::Submenu(name) => {
                match name {
                    Some(name) => {
                        self.submenus.push(name);
                        proof {
                            assert(texts(self.submenus@) =~= before.submenus.push(name@));
                        }
                    },
                    None => {},
                }
            },
            MenuLine::Other => {},
        }
    }

    /// The entries found.
    pub fn finish(self) -> (entries: Vec<GrubBootEntry>)
        ensures
            entry_models(entries@) == self@.entries,
    {
        self.entries
    }
}

/// What a line of the menu source says, unless the pattern that it is
/// searched with is refused.
pub(crate) fn classify(line: &Vec<char>) -> (r: Result<MenuLine, regex::Error>)
    ensures
        r matches Ok(said) ==> said@ == classify_line(line@),
        !uses_pattern(line@) ==> r is Ok,
{
    let trimmed = trim_chars(line);
    if trimmed.len() == 1 && trimmed[0] == '}' {
        proof {
            assert(trimmed@ =~= seq!['}']);
        }
        return Ok(MenuLine::Close);
    }
    let text = string_of(&trimmed, 0, trimmed.len());
    proof {
        assert(trimmed@.subrange(0, trimmed.len() as int) =~= trimmed@);
    }
    if has_prefix(&trimmed, "menuentry") {
        match first_group(ENTRY_PATTERN, text.as_str()) {
            Ok(found) => Ok(MenuLine::Entry(found)),
            Err(e) => Err(e),
        }
    } else if has_prefix(&trimmed, "submenu") {
        match first_group(SUBMENU_PATTERN, text.as_str()) {
            Ok(found) => Ok(MenuLine::Submenu(found)),
            Err(e) => Err(e),
        }
    } else {
        Ok(MenuLine::Other)
    }
}

} // verus!

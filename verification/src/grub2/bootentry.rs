//! The entries of the boot menu, each with the submenus it stands in.

use vstd::prelude::*;
use crate::errors::{DCtx, DError, DErrorType, DResult};
use crate::grub2::menu::{
    classify, classify_lines, menu_entries, menu_run, menu_start, menu_uses_patterns,
    reports_invalid_pattern, MenuParser, MENU_CONTEXT,
};
use crate::text::{chars_of, join, split, split_chars, views};

verus! {

/// What a boot entry is: its name, and the submenus it stands in, the
/// outermost first.
pub struct BootEntryModel {
    pub entry: Seq<char>,
    pub submenus: Seq<Seq<char>>,
}

impl BootEntryModel {
    /// The names of the submenus and of the entry, with `>` between them.
    pub open spec fn full_path(self) -> Seq<char> {
        if self.submenus.len() == 0 {
            self.entry
        } else {
            join(self.submenus, seq!['>']) + seq!['>'] + self.entry
        }
    }
}

/// The texts that strings hold.
pub open spec fn texts(strings: Seq<String>) -> Seq<Seq<char>> {
    strings.map_values(|s: String| s@)
}

/// What each of the entries is.
pub open spec fn entry_models(entries: Seq<GrubBootEntry>) -> Seq<BootEntryModel> {
    entries.map_values(|entry: GrubBootEntry| entry@)
}

/// An entry of the boot menu.
#[derive(Debug)]
pub struct GrubBootEntry {
    /// The name of the entry.
    entry: String,
    /// The submenus it stands in, the outermost first.
    submenus: Vec<String>,
}

impl View for GrubBootEntry {
    type V = BootEntryModel;

    closed spec fn view(&self) -> BootEntryModel {
        BootEntryModel { entry: self.entry@, submenus: texts(self.submenus@) }
    }
}

/// A copy of the strings.
pub(crate) fn clone_strings(strings: &Vec<String>) -> (copy: Vec<String>)
    ensures
        copy@ == strings@,
{
    let mut copy: Vec<String> = Vec::new();
    let mut i: usize = 0;
    while i < strings.len()
        invariant
            i <= strings.len(),
            copy@ == strings@.take(i as int),
        decreases strings.len() - i,
    {
        copy.push(strings[i].clone());
        i += 1;
    }
    copy
}

impl Clone for GrubBootEntry {
    fn clone(&self) -> (copy: Self)
        ensures
            copy@ == self@,
    {
        Self { entry: self.entry.clone(), submenus: clone_strings(&self.submenus) }
    }
}

impl GrubBootEntry {
    pub fn new(entry: String, submenus: Vec<String>) -> (created: Self)
        ensures
            created@ == (BootEntryModel { entry: entry@, submenus: texts(submenus@) }),
    {
        Self { entry, submenus }
    }

    /// The entries that a menu source declares, in the order in which they
    /// are found. Lines in which no name is found declare nothing.
    ///
    /// The only failure is a pattern that is refused, which can happen only
    /// where a line is searched with one.
    pub fn parse_entries(contents: &str) -> (r: DResult<Vec<GrubBootEntry>>)
        ensures
            r matches Ok(entries) ==> entry_models(entries@) == menu_entries(contents@),
            r matches Err(e) ==> reports_invalid_pattern(e),
            !menu_uses_patterns(contents@) ==> r is Ok,
    {
        let chars = chars_of(contents);
        let lines = split_chars(&chars, '\n');
        let ghost said = classify_lines(split(contents@, '\n'));
        let mut parser = MenuParser::new();
        let mut i: usize = 0;
        while i < lines.len()
            invariant
                i <= lines.len(),
                views(lines@) == split(contents@, '\n'),
                said == classify_lines(split(contents@, '\n')),
                parser@ == menu_run(menu_start(), said.take(i as int)),
            decreases lines.len() - i,
        {
            proof {
                assert(views(lines@)[i as int] == lines@[i as int]@);
            }
            let line = match classify(&lines[i]) {
                Ok(line) => line,
                Err(_) => {
                    return Err(
                        DError::new(
                            DCtx::new(MENU_CONTEXT.to_owned()),
                            DErrorType::GrubParse("Invalid regex".to_owned()),
                        ),
                    );
                },
            };
            proof {
                assert(said.take(i + 1).drop_last() =~= said.take(i as int));
            }
            parser.step(line);
            i += 1;
        }
        proof {
            assert(said.take(i as int) =~= said);
        }
        Ok(parser.finish())
    }

    /// The name of the entry.
    pub fn entry(&self) -> (name: &str)
        ensures
            name@ == self@.entry,
    {
        self.entry.as_str()
    }

    /// The names of the submenus and of the entry, with `>` between them.
    pub fn full_path(&self) -> (path: String)
        ensures
            path@ == self@.full_path(),
    {
        if self.submenus.len() == 0 {
            return self.entry.clone();
        }
        let mut path = String::new();
        let mut i: usize = 0;
        let ghost names = texts(self.submenus@);
        while i < self.submenus.len()
            invariant
                i <= self.submenus.len(),
                names == texts(self.submenus@),
                path@ == join(names.take(i as int), seq!['>']),
            decreases self.submenus.len() - i,
        {
            proof {
                assert(names.take(i + 1).drop_last() =~= names.take(i as int));
            }
            if i > 0 {
                path.push('>');
            }
            path.append(self.submenus[i].as_str());
            i += 1;
        }
        proof {
            assert(names.take(i as int) =~= names);
        }
        path.push('>');
        path.append(self.entry.as_str());
        path
    }
}

} // verus!

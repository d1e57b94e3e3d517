//! The configuration file as a whole: a sequence of lines that is written
//! out exactly as it was read, except for the entries that were changed.

use vstd::prelude::*;
use vstd::hash_map::StringHashMap;
use crate::errors::DResult;
use crate::grub2::document::{
    current_entries, document_text, last_position, lemma_last_position,
    lemma_last_position_update, lemma_parse_lines_stops, line_texts, lookup, parse_document,
    parse_lines, set_value,
};
use crate::grub2::keyvalue::{reports_missing_separator, GrubLine, KeyValue, LineModel};
use crate::text::{chars_of, join, split, split_chars, string_of, trim_chars, views};

verus! {

/// What each of the lines holds.
pub open spec fn models(lines: Seq<GrubLine>) -> Seq<LineModel> {
    lines.map_values(|line: GrubLine| line@)
}

/// Whether `index` maps every key of `lines` to the position of its last
/// entry, and no other key.
pub open spec fn index_matches(index: Map<Seq<char>, usize>, lines: Seq<LineModel>) -> bool {
    forall|key: Seq<char>|
        match #[trigger] last_position(lines, key) {
            Some(at) => index.contains_key(key) && index[key] == at,
            None => !index.contains_key(key),
        }
}

/// An index stays current when a line is appended, once it maps the key
/// of an appended entry to the position of that entry.
proof fn lemma_index_after_push(index: Map<Seq<char>, usize>, lines: Seq<LineModel>, line: LineModel)
    requires
        index_matches(index, lines),
        lines.len() <= usize::MAX,
    ensures
        index_matches(
            match line {
                LineModel::Entry(entry) => index.insert(entry.key, lines.len() as usize),
                LineModel::Text(_) => index,
            },
            lines.push(line),
        ),
{
    let after = lines.push(line);
    assert(after.drop_last() =~= lines);
    assert forall|key: Seq<char>| !line.has_key(key) implies #[trigger] last_position(after, key)
        == last_position(lines, key) by {}
}

/// The configuration file.
pub struct GrubFile {
    lines: Vec<GrubLine>,
    /// For every key, the position of the entry that lookups find.
    index: StringHashMap<usize>,
}

impl View for GrubFile {
    type V = Seq<LineModel>;

    closed spec fn view(&self) -> Seq<LineModel> {
        models(self.lines@)
    }
}

impl GrubFile {
    #[verifier::type_invariant]
    spec fn index_is_current(self) -> bool {
        index_matches(self.index@, models(self.lines@))
    }

    fn empty() -> (file: Self)
        ensures
            file@ == Seq::<LineModel>::empty(),
    {
        Self { lines: Vec::new(), index: StringHashMap::new() }
    }

    /// Reads a configuration text. Blank lines and comments are kept as
    /// they are; every other line must be an entry.
    pub fn new(file: &str) -> (r: DResult<Self>)
        ensures
            match parse_document(file@) {
                Ok(lines) => r matches Ok(read) && read@ == lines,
                Err(at) => r matches Err(e) && reports_missing_separator(e, at),
            },
    {
        let chars = chars_of(file);
        let segments = split_chars(&chars, '\n');
        let ghost all = split(file@, '\n');
        let mut lines: Vec<GrubLine> = Vec::new();
        let mut index: StringHashMap<usize> = StringHashMap::new();
        let mut i: usize = 0;
        proof {
            assert(models(lines@) =~= Seq::<LineModel>::empty());
        }
        while i < segments.len()
            invariant
                i <= segments.len(),
                views(segments@) == all,
                all == split(file@, '\n'),
                lines.len() == i,
                parse_lines(all.take(i as int)) == Ok::<Seq<LineModel>, usize>(models(lines@)),
                index_matches(index@, models(lines@)),
            decreases segments.len() - i,
        {
            let segment = &segments[i];
            let ghost before = models(lines@);
            proof {
                assert(all.take(i + 1).drop_last() =~= all.take(i as int));
            }
            let trimmed = trim_chars(segment);
            let raw = string_of(segment, 0, segment.len());
            proof {
                assert(segment@.subrange(0, segment.len() as int) =~= segment@);
            }
            if trimmed.len() == 0 || trimmed[0] == '#' {
                let line = GrubLine::String { raw_line: raw };
                proof {
                    lemma_index_after_push(index@, before, line@);
                }
                lines.push(line);
                proof {
                    assert(models(lines@) =~= before.push(line@));
                }
            } else {
                match KeyValue::new(i, raw.as_str()) {
                    Err(e) => {
                        proof {
                            lemma_parse_lines_stops(all, i + 1, i);
                        }
                        return Err(e);
                    },
                    Ok(kv) => {
                        proof {
                            lemma_index_after_push(index@, before, LineModel::Entry(kv@));
                        }
                        index.insert(kv.key.clone(), i);
                        let line = GrubLine::KeyValue(kv);
                        lines.push(line);
                        proof {
                            assert(models(lines@) =~= before.push(line@));
                        }
                    },
                }
            }
            i += 1;
        }
        proof {
            assert(all.take(i as int) =~= all);
        }
        Ok(Self { lines, index })
    }

    /// Sets `key` to `value`. The entry that a lookup of `key` finds gets
    /// the value, and counts as changed if the value is new to it; where
    /// there is no such entry, one is added after the last line.
    pub fn set_key_value(&mut self, key: &str, value: &str)
        ensures
            final(self)@ == set_value(old(self)@, key@, value@),
    {
        proof {
            use_type_invariant(&*self);
        }
        let found: Option<usize> = match self.index.get(key) {
            Some(at) => Some(*at),
            None => None,
        };
        let mut taken = Self::empty();
        core::mem::swap(self, &mut taken);
        let GrubFile { mut lines, mut index } = taken;
        let ghost before = models(lines@);
        proof {
            lemma_last_position(before, key@);
        }
        match found {
            Some(at) => {
                let updated = match &lines[at] {
                    GrubLine::KeyValue(kv) => {
                        let mut kv = kv.clone();
                        kv.update(value);
                        GrubLine::KeyValue(kv)
                    },
                    GrubLine::String { raw_line } => GrubLine::String { raw_line: raw_line.clone() },
                };
                proof {
                    assert forall|k: Seq<char>|
                        match #[trigger] last_position(before.update(at as int, updated@), k) {
                            Some(p) => index@.contains_key(k) && index@[k] == p,
                            None => !index@.contains_key(k),
                        } by {
                        lemma_last_position_update(before, at as int, updated@, k);
                    }
                }
                lines.set(at, updated);
                proof {
                    assert(models(lines@) =~= before.update(at as int, updated@));
                }
            },
            None => {
                let at = lines.len();
                let kv = KeyValue::from_key_val(at, key, value);
                let line = GrubLine::KeyValue(kv);
                proof {
                    lemma_index_after_push(index@, before, line@);
                }
                index.insert(key.to_owned(), at);
                lines.push(line);
                proof {
                    assert(models(lines@) =~= before.push(line@));
                }
            },
        }
        *self = GrubFile { lines, index };
    }

    /// A document of the given lines, each as it is.
    pub fn from_lines(grub_lines: &[GrubLine]) -> (file: Self)
        ensures
            file@ == models(grub_lines@),
    {
        let mut lines: Vec<GrubLine> = Vec::new();
        let mut index: StringHashMap<usize> = StringHashMap::new();
        let mut i: usize = 0;
        while i < grub_lines.len()
            invariant
                i <= grub_lines.len(),
                lines.len() == i,
                models(lines@) == models(grub_lines@).take(i as int),
                index_matches(index@, models(lines@)),
            decreases grub_lines.len() - i,
        {
            let ghost before = models(lines@);
            let line = grub_lines[i].clone();
            proof {
                lemma_index_after_push(index@, before, line@);
            }
            match &line {
                GrubLine::KeyValue(kv) => {
                    index.insert(kv.key.clone(), i);
                },
                GrubLine::String { .. } => {},
            }
            lines.push(line);
            proof {
                assert(models(lines@) =~= before.push(line@));
            }
            i += 1;
        }
        Self { lines, index }
    }

    /// The lines of the document, in order.
    pub fn lines(&self) -> (lines: &[GrubLine])
        ensures
            models(lines@) == self@,
    {
        self.lines.as_slice()
    }

    /// The entry that holds the value of `key`: the last one for that key.
    pub fn get(&self, key: &str) -> (found: Option<&KeyValue>)
        ensures
            match lookup(self@, key@) {
                Some(entry) => found matches Some(kv) && kv@ == entry,
                None => found is None,
            },
    {
        proof {
            use_type_invariant(self);
            lemma_last_position(models(self.lines@), key@);
        }
        match self.index.get(key) {
            Some(at) => match &self.lines[*at] {
                GrubLine::KeyValue(kv) => Some(kv),
                GrubLine::String { .. } => None,
            },
            None => None,
        }
    }

    /// The entries that hold the values of the keys, one for each key, in
    /// the order of their lines.
    pub fn keyvalues(&self) -> (entries: Vec<KeyValue>)
        ensures
            entries@.map_values(|kv: KeyValue| kv@) == current_entries(self@, self@.len() as int),
    {
        proof {
            use_type_invariant(self);
        }
        let mut entries: Vec<KeyValue> = Vec::new();
        let mut i: usize = 0;
        while i < self.lines.len()
            invariant
                i <= self.lines.len(),
                self@ == models(self.lines@),
                index_matches(self.index@, self@),
                entries@.map_values(|kv: KeyValue| kv@) == current_entries(self@, i as int),
            decreases self.lines.len() - i,
        {
            match &self.lines[i] {
                GrubLine::KeyValue(kv) => {
                    let current = match self.index.get(kv.key.as_str()) {
                        Some(at) => *at == i,
                        None => false,
                    };
                    if current {
                        let copy = kv.clone();
                        entries.push(copy);
                    }
                },
                GrubLine::String { .. } => {},
            }
            i += 1;
        }
        entries
    }

    /// The text of the document.
    pub fn as_string(&self) -> (text: String)
        ensures
            text@ == document_text(self@),
    {
        let mut text = String::new();
        let mut i: usize = 0;
        let ghost texts = line_texts(self@);
        while i < self.lines.len()
            invariant
                i <= self.lines.len(),
                self@ == models(self.lines@),
                texts == line_texts(self@),
                text@ == join(texts.take(i as int), seq!['\n']),
            decreases self.lines.len() - i,
        {
            let line = String::from(&self.lines[i]);
            proof {
                assert(texts.take(i + 1).drop_last() =~= texts.take(i as int));
            }
            if i > 0 {
                text.push('\n');
            }
            text.append(line.as_str());
            i += 1;
        }
        proof {
            assert(texts.take(i as int) =~= texts);
        }
        text
    }
}

} // verus!

//! What a configuration text holds, and what reading, editing and writing
//! do to it. The laws of the document are stated and proved here.

use vstd::prelude::*;
use crate::grub2::keyvalue::{parse_entry, rewritten, EntryModel, LineModel};
use crate::text::{join, lemma_join_split, split, trim};

verus! {

/// Whether a line is kept as text: it is blank, or a comment.
pub open spec fn is_text_line(line: Seq<char>) -> bool {
    trim(line).len() == 0 || trim(line)[0] == '#'
}

/// What the line `line`, found at position `at`, holds; `None` for a line
/// that should be an entry and has no separator.
pub open spec fn parse_line(at: usize, line: Seq<char>) -> Option<LineModel> {
    if is_text_line(line) {
        Some(LineModel::Text(line))
    } else {
        match parse_entry(at, line) {
            Some(entry) => Some(LineModel::Entry(entry)),
            None => None,
        }
    }
}

/// What the lines hold, or the zero-based position of the first line that
/// cannot be read.
pub open spec fn parse_lines(lines: Seq<Seq<char>>) -> Result<Seq<LineModel>, usize>
    decreases lines.len(),
{
    if lines.len() == 0 {
        Ok(Seq::empty())
    } else {
        let at = (lines.len() - 1) as usize;
        match parse_lines(lines.drop_last()) {
            Err(earlier) => Err(earlier),
            Ok(done) => match parse_line(at, lines.last()) {
                Some(line) => Ok(done.push(line)),
                None => Err(at),
            },
        }
    }
}

/// What a configuration text holds, line by line. The text is cut at every
/// line feed, so a text that ends in one has a last, empty line.
pub open spec fn parse_document(text: Seq<char>) -> Result<Seq<LineModel>, usize> {
    parse_lines(split(text, '\n'))
}

/// How each of the lines is written out.
pub open spec fn line_texts(lines: Seq<LineModel>) -> Seq<Seq<char>> {
    lines.map_values(|line: LineModel| line.text())
}

/// The text of a document: its lines as they are written out, with a line
/// feed between each two.
pub open spec fn document_text(lines: Seq<LineModel>) -> Seq<char> {
    join(line_texts(lines), seq!['\n'])
}

/// The position of the last entry for `key`.
pub open spec fn last_position(lines: Seq<LineModel>, key: Seq<char>) -> Option<int>
    decreases lines.len(),
{
    if lines.len() == 0 {
        None
    } else if lines.last().has_key(key) {
        Some(lines.len() - 1)
    } else {
        last_position(lines.drop_last(), key)
    }
}

/// The entry that a lookup of `key` finds: the last one in the document.
pub open spec fn lookup(lines: Seq<LineModel>, key: Seq<char>) -> Option<EntryModel> {
    match last_position(lines, key) {
        Some(at) => Some(lines[at]->Entry_0),
        None => None,
    }
}

/// The entry that is appended for a key that the document does not hold.
pub open spec fn appended_entry(lines: Seq<LineModel>, key: Seq<char>, value: Seq<char>) -> EntryModel {
    EntryModel {
        line: lines.len() as usize,
        original: Seq::empty(),
        changed: true,
        key,
        value,
    }
}

/// The document after `key` is set to `value`: the entry that a lookup
/// finds is updated where it stands, and a key that is not there yet gets a
/// new entry at the end.
pub open spec fn set_value(lines: Seq<LineModel>, key: Seq<char>, value: Seq<char>) -> Seq<LineModel> {
    match last_position(lines, key) {
        Some(at) => lines.update(at, LineModel::Entry(lines[at]->Entry_0.updated(value))),
        None => lines.push(LineModel::Entry(appended_entry(lines, key, value))),
    }
}

/// The entries that lookups can find, in the order of their lines: of `n`
/// leading lines, those entries that are the last for their key in `lines`.
pub open spec fn current_entries(lines: Seq<LineModel>, n: int) -> Seq<EntryModel>
    decreases n,
{
    if n <= 0 {
        Seq::empty()
    } else {
        let before = current_entries(lines, n - 1);
        match lines[n - 1] {
            LineModel::Entry(entry) => if last_position(lines, entry.key) == Some(n - 1) {
                before.push(entry)
            } else {
                before
            },
            LineModel::Text(_) => before,
        }
    }
}

/// `last_position` finds an entry for the key, and none follows it.
pub proof fn lemma_last_position(lines: Seq<LineModel>, key: Seq<char>)
    ensures
        match last_position(lines, key) {
            Some(at) => {
                &&& 0 <= at < lines.len()
                &&& lines[at].has_key(key)
                &&& forall|j: int| at < j < lines.len() ==> !(#[trigger] lines[j]).has_key(key)
            },
            None => forall|j: int| 0 <= j < lines.len() ==> !(#[trigger] lines[j]).has_key(key),
        },
    decreases lines.len(),
{
    if lines.len() > 0 && !lines.last().has_key(key) {
        let front = lines.drop_last();
        lemma_last_position(front, key);
        match last_position(front, key) {
            Some(at) => {
                assert forall|j: int| at < j < lines.len() implies !(#[trigger] lines[j]).has_key(key) by {
                    if j < front.len() {
                        assert(lines[j] == front[j]);
                    }
                }
            },
            None => {
                assert forall|j: int| 0 <= j < lines.len() implies !(#[trigger] lines[j]).has_key(key) by {
                    if j < front.len() {
                        assert(lines[j] == front[j]);
                    }
                }
            },
        }
    }
}

/// Replacing a line by one for the same key, or text by text, moves no
/// last position.
pub proof fn lemma_last_position_update(lines: Seq<LineModel>, at: int, line: LineModel, key: Seq<char>)
    requires
        0 <= at < lines.len(),
        line.has_key(key) == lines[at].has_key(key),
    ensures
        last_position(lines.update(at, line), key) == last_position(lines, key),
    decreases lines.len(),
{
    let after = lines.update(at, line);
    if at == lines.len() - 1 {
        assert(after.drop_last() =~= lines.drop_last());
    } else {
        assert(after.drop_last() =~= lines.drop_last().update(at, line));
        lemma_last_position_update(lines.drop_last(), at, line, key);
    }
}

/// Once a leading part of the lines cannot be read, neither can the whole,
/// and the same line is at fault.
pub proof fn lemma_parse_lines_stops(lines: Seq<Seq<char>>, n: int, at: usize)
    requires
        0 <= n <= lines.len(),
        parse_lines(lines.take(n)) == Err::<Seq<LineModel>, usize>(at),
    ensures
        parse_lines(lines) == Err::<Seq<LineModel>, usize>(at),
    decreases lines.len() - n,
{
    if n == lines.len() {
        assert(lines.take(n) =~= lines);
    } else {
        assert(lines.take(n + 1).drop_last() =~= lines.take(n));
        lemma_parse_lines_stops(lines, n + 1, at);
    }
}

/// A text that can be read is written out as it was: reading keeps every
/// line, and a line that was not changed is written as it was read.
pub proof fn lemma_round_trip(text: Seq<char>)
    requires
        parse_document(text) is Ok,
    ensures
        document_text(parse_document(text)->Ok_0) == text,
{
    let lines = split(text, '\n');
    lemma_parsed_lines_keep_text(lines);
    lemma_join_split(text, '\n');
}

/// Reading keeps the number of lines and the text of each.
pub proof fn lemma_parsed_lines_keep_text(lines: Seq<Seq<char>>)
    requires
        parse_lines(lines) is Ok,
    ensures
        line_texts(parse_lines(lines)->Ok_0) == lines,
    decreases lines.len(),
{
    if lines.len() > 0 {
        let front = lines.drop_last();
        lemma_parsed_lines_keep_text(front);
        let done = parse_lines(front)->Ok_0;
        let last = parse_line((lines.len() - 1) as usize, lines.last())->Some_0;
        assert(line_texts(done.push(last)) =~= line_texts(done).push(last.text()));
    }
}

/// A text cannot be read exactly when one of its lines is neither text nor
/// has a separator; the position reported is that of the first such line.
pub proof fn lemma_parse_reports_first_bad_line(lines: Seq<Seq<char>>)
    requires
        lines.len() <= usize::MAX,
    ensures
        match parse_lines(lines) {
            Ok(done) => {
                &&& done.len() == lines.len()
                &&& forall|i: int|
                    0 <= i < lines.len() ==> parse_line(i as usize, #[trigger] lines[i]) == Some(done[i])
            },
            Err(at) => {
                &&& at < lines.len()
                &&& parse_line(at, lines[at as int]) is None
                &&& forall|i: int| 0 <= i < at ==> parse_line(i as usize, #[trigger] lines[i]) is Some
            },
        },
    decreases lines.len(),
{
    if lines.len() > 0 {
        let front = lines.drop_last();
        lemma_parse_reports_first_bad_line(front);
        assert forall|i: int| 0 <= i < front.len() implies front[i] == lines[i] by {}
    }
}

/// What a lookup finds is an entry of the document, and has the key that
/// was looked up.
pub proof fn lemma_lookup_is_a_line(lines: Seq<LineModel>, key: Seq<char>)
    ensures
        lookup(lines, key) matches Some(entry) ==> entry.key == key && lines.contains(
            LineModel::Entry(entry),
        ),
        lookup(lines, key) is None <==> forall|j: int|
            0 <= j < lines.len() ==> !(#[trigger] lines[j]).has_key(key),
{
    lemma_last_position(lines, key);
}

/// The current entries are what lookups find: each of them is found by a
/// lookup of its key, and whatever a lookup finds is among them.
pub proof fn lemma_current_entries(lines: Seq<LineModel>, n: int)
    requires
        0 <= n <= lines.len(),
    ensures
        forall|i: int|
            0 <= i < current_entries(lines, n).len() ==> lookup(
                lines,
                (#[trigger] current_entries(lines, n)[i]).key,
            ) == Some(current_entries(lines, n)[i]),
        forall|key: Seq<char>|
            (#[trigger] last_position(lines, key) matches Some(at) && at < n) ==> current_entries(
                lines,
                n,
            ).contains(lookup(lines, key)->Some_0),
    decreases n,
{
    if n > 0 {
        lemma_current_entries(lines, n - 1);
        let before = current_entries(lines, n - 1);
        let now = current_entries(lines, n);
        assert forall|key: Seq<char>|
            (#[trigger] last_position(lines, key) matches Some(at) && at < n) implies now.contains(
            lookup(lines, key)->Some_0,
        ) by {
            let at = last_position(lines, key)->Some_0;
            lemma_last_position(lines, key);
            if at < n - 1 {
                let found = lookup(lines, key)->Some_0;
                let i = choose|i: int| 0 <= i < before.len() && before[i] == found;
                assert(now[i] == found);
            } else {
                assert(now.last() == lookup(lines, key)->Some_0);
            }
        }
    } else {
        assert forall|key: Seq<char>|
            (#[trigger] last_position(lines, key) matches Some(at) && at < n) implies current_entries(
            lines,
            n,
        ).contains(lookup(lines, key)->Some_0) by {
            lemma_last_position(lines, key);
        }
    }
}

/// Of two entries for one key, a lookup finds the later: it finds the
/// entry after which no entry for the key follows.
pub proof fn lemma_last_occurrence_wins(lines: Seq<LineModel>, key: Seq<char>, at: int)
    requires
        0 <= at < lines.len(),
        lines[at].has_key(key),
        forall|j: int| at < j < lines.len() ==> !(#[trigger] lines[j]).has_key(key),
    ensures
        last_position(lines, key) == Some(at),
        lookup(lines, key) == Some(lines[at]->Entry_0),
{
    lemma_last_position(lines, key);
}

/// Setting a key to the value it has changes nothing: no entry becomes
/// changed, and the text of the document stays the same.
pub proof fn lemma_set_same_value(lines: Seq<LineModel>, key: Seq<char>, value: Seq<char>)
    requires
        lookup(lines, key) matches Some(entry) && entry.value == value,
    ensures
        set_value(lines, key, value) == lines,
        document_text(set_value(lines, key, value)) == document_text(lines),
{
    lemma_last_position(lines, key);
    let at = last_position(lines, key)->Some_0;
    assert(lines.update(at, lines[at]) =~= lines);
}

/// Setting a key to another value than it has rewrites one line: the entry
/// that a lookup finds is then written as the key, `=` and the new value in
/// double quotes, and every other line stays as it was.
pub proof fn lemma_set_other_value(lines: Seq<LineModel>, key: Seq<char>, value: Seq<char>)
    requires
        lookup(lines, key) matches Some(entry) && entry.value != value,
    ensures
        ({
            let at = last_position(lines, key)->Some_0;
            let after = set_value(lines, key, value);
            &&& 0 <= at < lines.len()
            &&& after.len() == lines.len()
            &&& after[at].text() == rewritten(key, value)
            &&& forall|j: int| 0 <= j < lines.len() && j != at ==> after[j] == lines[j]
            &&& lookup(after, key) matches Some(entry) && entry.value == value && entry.changed
        }),
{
    lemma_last_position(lines, key);
    let at = last_position(lines, key)->Some_0;
    let after = set_value(lines, key, value);
    lemma_last_position_update(lines, at, after[at], key);
}

/// Setting a key that the document does not hold appends one line, written
/// as the key, `=` and the value in double quotes, and leaves every line
/// before it as it was and where it was.
pub proof fn lemma_set_new_key(lines: Seq<LineModel>, key: Seq<char>, value: Seq<char>)
    requires
        lookup(lines, key) is None,
    ensures
        ({
            let after = set_value(lines, key, value);
            &&& after.len() == lines.len() + 1
            &&& after.take(lines.len() as int) == lines
            &&& after.last().text() == rewritten(key, value)
            &&& lines.len() > 0 ==> document_text(after) == document_text(lines) + seq!['\n'] + rewritten(
                key,
                value,
            )
            &&& lookup(after, key) matches Some(entry) && entry.value == value
        }),
{
    let after = set_value(lines, key, value);
    assert(line_texts(after).drop_last() =~= line_texts(lines));
}

/// After a key is set to a value, a lookup of the key finds that value,
/// and a lookup of any other key finds what it found before.
pub proof fn lemma_set_then_lookup(lines: Seq<LineModel>, key: Seq<char>, value: Seq<char>, other: Seq<char>)
    ensures
        lookup(set_value(lines, key, value), key) matches Some(entry) && entry.value == value,
        other != key ==> lookup(set_value(lines, key, value), other) == lookup(lines, other),
{
    let after = set_value(lines, key, value);
    lemma_last_position(lines, key);
    match last_position(lines, key) {
        Some(at) => {
            lemma_last_position_update(lines, at, after[at], key);
            if other != key {
                lemma_last_position_update(lines, at, after[at], other);
                lemma_last_position(lines, other);
            }
        },
        None => {
            assert(after.drop_last() =~= lines);
            if other != key {
                lemma_last_position(lines, other);
            }
        },
    }
}

/// What an edit does to a text that was read. Setting a key leaves the
/// text as it was if the key has that value already. If the key has another
/// value, the line of its last entry is rewritten and every other line is
/// the line of the text. If the text has no entry for the key, one line is
/// added after the last, and every line of the text stays.
pub proof fn lemma_edit_of_text(text: Seq<char>, key: Seq<char>, value: Seq<char>)
    requires
        parse_document(text) is Ok,
    ensures
        ({
            let lines = parse_document(text)->Ok_0;
            let after = set_value(lines, key, value);
            match lookup(lines, key) {
                Some(entry) => if entry.value == value {
                    document_text(after) == text
                } else {
                    line_texts(after) == split(text, '\n').update(
                        last_position(lines, key)->Some_0,
                        rewritten(key, value),
                    )
                },
                None => line_texts(after) == split(text, '\n').push(rewritten(key, value)),
            }
        }),
{
    let lines = parse_document(text)->Ok_0;
    lemma_parsed_lines_keep_text(split(text, '\n'));
    lemma_last_position(lines, key);
    if lookup(lines, key) matches Some(entry) && entry.value == value {
        lemma_set_same_value(lines, key, value);
        lemma_round_trip(text);
    }
}

} // verus!

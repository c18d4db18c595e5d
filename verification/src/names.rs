//! The name database: display names of titles, keyed by code string.
//!
//! Its text form holds one entry per line, written `KEY = VALUE`. The first
//! ` = ` of a line parts the key from the value.

use crate::error::Error;
use crate::text::chars_of;
use crate::text::push_chars;
use vstd::hash_map::StringHashMap;
use vstd::prelude::*;

verus! {

/// Whether the separator ` = ` stands at position `at` of `line`.
pub open spec fn separator_at(line: Seq<char>, at: int) -> bool {
    &&& 0 <= at
    &&& at + 3 <= line.len()
    &&& line[at] == ' '
    &&& line[at + 1] == '='
    &&& line[at + 2] == ' '
}

/// Whether `line` holds the separator anywhere.
pub open spec fn has_separator(line: Seq<char>) -> bool {
    exists|at: int| separator_at(line, at)
}

/// Whether the first separator of `line` stands at position `at`.
pub open spec fn is_first_separator(line: Seq<char>, at: int) -> bool {
    &&& separator_at(line, at)
    &&& forall|before: int| 0 <= before < at ==> !separator_at(line, before)
}

/// The key and the value of a line: what stands before its first separator
/// and what stands behind it. `None` for a line without a separator.
pub open spec fn entry_of(line: Seq<char>) -> Option<(Seq<char>, Seq<char>)> {
    if exists|at: int| is_first_separator(line, at) {
        let at = choose|at: int| is_first_separator(line, at);
        Some((line.take(at), line.skip(at + 3)))
    } else {
        None
    }
}

/// Whether the first line feed of `text` stands at position `at`.
pub open spec fn is_first_line_feed(text: Seq<char>, at: int) -> bool {
    &&& 0 <= at < text.len()
    &&& text[at] == '\n'
    &&& forall|before: int| 0 <= before < at ==> text[before] != '\n'
}

/// A line without the carriage return that may end it.
pub open spec fn without_carriage_return(line: Seq<char>) -> Seq<char> {
    if line.len() > 0 && line.last() == '\r' {
        line.drop_last()
    } else {
        line
    }
}

/// The lines of a text. A line ends at a line feed, or at a carriage return
/// directly in front of one; neither belongs to the line. What follows the
/// last line feed is a line unless it is empty.
pub open spec fn lines_of(text: Seq<char>) -> Seq<Seq<char>>
    decreases text.len(),
{
    if text.len() == 0 {
        Seq::empty()
    } else if exists|at: int| is_first_line_feed(text, at) {
        let at = choose|at: int| is_first_line_feed(text, at);
        seq![without_carriage_return(text.take(at))] + lines_of(text.skip(at + 1))
    } else {
        seq![text]
    }
}

/// The names that a sequence of lines defines, a later line overriding an
/// earlier one with the same key. `None` where a line has no separator.
pub open spec fn names_of_lines(lines: Seq<Seq<char>>) -> Option<Map<Seq<char>, Seq<char>>>
    decreases lines.len(),
{
    if lines.len() == 0 {
        Some(Map::empty())
    } else {
        match (names_of_lines(lines.drop_last()), entry_of(lines.last())) {
            (Some(names), Some(entry)) => Some(names.insert(entry.0, entry.1)),
            _ => None,
        }
    }
}

/// The names that the text of a database defines.
pub open spec fn database_of(text: Seq<char>) -> Option<Map<Seq<char>, Seq<char>>> {
    names_of_lines(lines_of(text))
}

/// The character sequences of a list of strings.
pub open spec fn views_of(lines: Seq<String>) -> Seq<Seq<char>> {
    lines.map_values(|line: String| line@)
}

/// The first separator of a line is where any first separator is.
proof fn lemma_entry_at(line: Seq<char>, at: int)
    requires
        is_first_separator(line, at),
    ensures
        entry_of(line) == Some((line.take(at), line.skip(at + 3))),
{
    let chosen = choose|at: int| is_first_separator(line, at);
    assert(!(chosen < at));
    assert(!(at < chosen));
}

/// A text with a line feed starts with the line in front of the first one.
proof fn lemma_lines_at(text: Seq<char>, at: int)
    requires
        is_first_line_feed(text, at),
    ensures
        lines_of(text) == seq![without_carriage_return(text.take(at))] + lines_of(
            text.skip(at + 1),
        ),
{
    let chosen = choose|at: int| is_first_line_feed(text, at);
    assert(!(chosen < at));
    assert(!(at < chosen));
}

/// Once a line is malformed, no later line mends the database.
proof fn lemma_malformed_prefix(lines: Seq<Seq<char>>, count: int)
    requires
        0 <= count <= lines.len(),
        names_of_lines(lines.take(count)) is None,
    ensures
        names_of_lines(lines) is None,
    decreases lines.len() - count,
{
    if count < lines.len() {
        assert(lines.take(count + 1).drop_last() =~= lines.take(count));
        lemma_malformed_prefix(lines, count + 1);
    } else {
        assert(lines.take(count) =~= lines);
    }
}

/// Splits a text into its lines.
pub fn split_lines(text: &str) -> (lines: Vec<String>)
    ensures
        views_of(lines@) == lines_of(text@),
{
    let chars = chars_of(text);
    let mut lines: Vec<String> = Vec::new();
    let mut start: usize = 0;
    let mut at: usize = 0;
    proof {
        assert(text@.skip(0) =~= text@);
        assert(views_of(lines@) + lines_of(text@) =~= lines_of(text@));
    }
    while at < chars.len()
        invariant
            chars@ == text@,
            start <= at <= chars@.len(),
            forall|k: int| start <= k < at ==> chars@[k] != '\n',
            lines_of(text@) == views_of(lines@) + lines_of(text@.skip(start as int)),
        decreases chars@.len() - at,
    {
        if chars[at] == '\n' {
            let mut end: usize = at;
            if end > start && chars[end - 1] == '\r' {
                end -= 1;
            }
            let mut line = String::new();
            push_chars(&mut line, chars.as_slice(), start, end);
            proof {
                let rest = text@.skip(start as int);
                assert(is_first_line_feed(rest, at - start));
                lemma_lines_at(rest, at - start);
                assert(rest.take(at - start) =~= text@.subrange(start as int, at as int));
                assert(rest.skip(at - start + 1) =~= text@.skip(at + 1));
                assert(line@ =~= without_carriage_return(rest.take(at - start)));
                assert(views_of(lines@.push(line)) =~= views_of(lines@).push(line@));
            }
            lines.push(line);
            start = at + 1;
        }
        at += 1;
    }
    if start < chars.len() {
        let mut line = String::new();
        push_chars(&mut line, chars.as_slice(), start, chars.len());
        proof {
            let rest = text@.skip(start as int);
            assert(line@ =~= rest);
            assert(lines_of(rest) == seq![rest]);
            assert(views_of(lines@.push(line)) =~= views_of(lines@).push(line@));
        }
        lines.push(line);
    } else {
        assert(lines_of(text@.skip(start as int)) == Seq::<Seq<char>>::empty());
    }
    lines
}

/// Parts one line of the database into its key and its value.
pub fn parse_line(line: &str) -> (result: Result<(String, String), Error>)
    ensures
        match entry_of(line@) {
            Some(entry) => result matches Ok(pair) && pair.0@ == entry.0 && pair.1@ == entry.1,
            None => result matches Err(error) && error == Error::MalformedDatabaseLine,
        },
        result is Ok <==> has_separator(line@),
{
    let chars = chars_of(line);
    let len: usize = chars.len();
    let mut at: usize = 0;
    while len - at >= 3
        invariant
            at <= len,
            chars@ == line@,
            len == chars@.len(),
            forall|before: int| 0 <= before < at ==> !separator_at(line@, before),
        decreases len - at,
    {
        if chars[at] == ' ' && chars[at + 1] == '=' && chars[at + 2] == ' ' {
            let mut key = String::new();
            push_chars(&mut key, chars.as_slice(), 0, at);
            let mut value = String::new();
            push_chars(&mut value, chars.as_slice(), at + 3, len);
            proof {
                assert(is_first_separator(line@, at as int));
                lemma_entry_at(line@, at as int);
                assert(key@ =~= line@.take(at as int));
                assert(value@ =~= line@.skip(at + 3));
            }
            return Ok((key, value));
        }
        at += 1;
    }
    Err(Error::MalformedDatabaseLine)
}

/// Display names of titles, found by code string.
pub struct NameLookup {
    names: StringHashMap<String>,
}

impl View for NameLookup {
    type V = Map<Seq<char>, Seq<char>>;

    /// The names as a map from code string to display name.
    closed spec fn view(&self) -> Map<Seq<char>, Seq<char>> {
        self.names@.map_values(|name: String| name@)
    }
}

impl NameLookup {
    /// A lookup that knows no name.
    pub fn new() -> (lookup: NameLookup)
        ensures
            lookup@ == Map::<Seq<char>, Seq<char>>::empty(),
    {
        let lookup = NameLookup { names: StringHashMap::new() };
        assert(lookup@ =~= Map::<Seq<char>, Seq<char>>::empty());
        lookup
    }

    /// Gives `code` the name `name`, in place of any name it had.
    pub fn insert(&mut self, code: String, name: String)
        ensures
            final(self)@ == old(self)@.insert(code@, name@),
    {
        let ghost before = self.names@;
        self.names.insert(code, name);
        assert(self@ =~= before.map_values(|name: String| name@).insert(code@, name@));
    }

    /// The name of `code`, if the lookup holds one.
    pub fn lookup(&self, code: &str) -> (name: Option<&String>)
        ensures
            match name {
                Some(name) => self@.contains_key(code@) && name@ == self@[code@],
                None => !self@.contains_key(code@),
            },
    {
        self.names.get(code)
    }

    /// Reads the text of a database.
    ///
    /// Every line must hold the separator: a text with a line that lacks it,
    /// an empty line too, is refused as a whole.
    pub fn parse(text: &str) -> (result: Result<NameLookup, Error>)
        ensures
            match database_of(text@) {
                Some(names) => result matches Ok(lookup) && lookup@ == names,
                None => result matches Err(error) && error == Error::MalformedDatabaseLine,
            },
    {
        let lines = split_lines(text);
        let mut lookup = NameLookup::new();
        let mut index: usize = 0;
        while index < lines.len()
            invariant
                index <= lines@.len(),
                views_of(lines@) == lines_of(text@),
                names_of_lines(lines_of(text@).take(index as int)) == Some(lookup@),
            decreases lines@.len() - index,
        {
            let ghost done = lines_of(text@).take(index as int);
            let ghost next = lines_of(text@).take(index + 1);
            proof {
                assert(next.drop_last() =~= done);
                assert(next.last() == lines@[index as int]@);
            }
            match parse_line(lines[index].as_str()) {
                Ok(pair) => {
                    lookup.insert(pair.0, pair.1);
                },
                Err(error) => {
                    proof {
                        lemma_malformed_prefix(lines_of(text@), index + 1);
                    }
                    return Err(error);
                },
            }
            index += 1;
        }
        assert(lines_of(text@).take(index as int) =~= lines_of(text@));
        Ok(lookup)
    }
}

} // verus!

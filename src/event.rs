//! Events of the line-oriented `field: value` stream, and how one physical
//! line becomes at most one event.

use vstd::prelude::*;
use crate::text::string_of;

verus! {

/// One decoded record: an optional id, a name and a payload.
#[derive(Debug)]
pub struct SSEvent<T> {
    pub id: Option<String>,
    pub name: String,
    pub data: T,
}

/// What an event with a text payload holds, as character sequences.
pub struct EventModel {
    pub id: Option<Seq<char>>,
    pub name: Seq<char>,
    pub data: Seq<char>,
}

pub open spec fn opt_chars(o: Option<String>) -> Option<Seq<char>> {
    match o {
        Some(s) => Some(s@),
        None => None,
    }
}

impl View for SSEvent<String> {
    type V = EventModel;

    open spec fn view(&self) -> EventModel {
        EventModel { id: opt_chars(self.id), name: self.name@, data: self.data@ }
    }
}

pub open spec fn opt_event(o: Option<SSEvent<String>>) -> Option<EventModel> {
    match o {
        Some(e) => Some(e@),
        None => None,
    }
}

/// The field names that the stream recognises.
#[derive(PartialEq, Eq, Structural, Clone, Copy, Debug)]
pub enum Field {
    Id,
    Event,
    Data,
    Other,
}

pub open spec fn word_id() -> Seq<char> {
    seq!['i', 'd']
}

pub open spec fn word_event() -> Seq<char> {
    seq!['e', 'v', 'e', 'n', 't']
}

pub open spec fn word_data() -> Seq<char> {
    seq!['d', 'a', 't', 'a']
}

/// The name an event carries when no `event` field set one.
pub open spec fn default_name() -> Seq<char> {
    seq!['m', 'e', 's', 's', 'a', 'g', 'e']
}

pub open spec fn field_kind(f: Seq<char>) -> Field {
    if f == word_id() {
        Field::Id
    } else if f == word_event() {
        Field::Event
    } else if f == word_data() {
        Field::Data
    } else {
        Field::Other
    }
}

/// Unicode `White_Space` characters.
pub open spec fn is_space(c: char) -> bool {
    let u = c as u32;
    (9 <= u && u <= 13) || u == 32 || u == 0x85 || u == 0xA0 || u == 0x1680 || (0x2000 <= u
        && u <= 0x200A) || u == 0x2028 || u == 0x2029 || u == 0x202F || u == 0x205F || u == 0x3000
}

/// Index of the first `:` at or after `i`, or the length when there is none.
pub open spec fn colon_from(l: Seq<char>, i: int) -> int
    decreases l.len() - i,
{
    if 0 <= i < l.len() {
        if l[i] == ':' {
            i
        } else {
            colon_from(l, i + 1)
        }
    } else {
        l.len() as int
    }
}

/// Index of the first non-space character at or after `i`.
pub open spec fn space_end(l: Seq<char>, i: int) -> int
    decreases l.len() - i,
{
    if 0 <= i < l.len() && is_space(l[i]) {
        space_end(l, i + 1)
    } else {
        i
    }
}

/// The field: everything before the first colon (the whole line if none).
pub open spec fn field_of(l: Seq<char>) -> Seq<char> {
    l.subrange(0, colon_from(l, 0))
}

/// Where the value starts: the text from the first colon on, with one
/// leading `": "` and then any leading white space removed.
pub open spec fn value_start(l: Seq<char>) -> int {
    let c = colon_from(l, 0);
    if c >= l.len() {
        l.len() as int
    } else if c + 1 < l.len() && l[c + 1] == ' ' {
        space_end(l, c + 2)
    } else {
        space_end(l, c)
    }
}

pub open spec fn value_of(l: Seq<char>) -> Seq<char> {
    l.subrange(value_start(l), l.len() as int)
}

/// The record that one physical line (without its terminator) describes,
/// before suppression: a fresh event for every line.
pub open spec fn line_record(l: Seq<char>) -> EventModel {
    let f = field_kind(field_of(l));
    let v = value_of(l);
    EventModel {
        id: if f == Field::Id { Some(v) } else { None },
        name: if f == Field::Event { v } else { default_name() },
        data: if f == Field::Data { v.push('\n') } else { Seq::empty() },
    }
}

/// The event a line yields: none when the name is the default and the
/// payload is empty.
pub open spec fn line_event(l: Seq<char>) -> Option<EventModel> {
    let e = line_record(l);
    if e.data.len() == 0 && e.name == default_name() {
        None
    } else {
        Some(e)
    }
}

/// Whether `c` is a Unicode `White_Space` character.
pub fn is_space_char(c: char) -> (r: bool)
    ensures
        r == is_space(c),
{
    let u = c as u32;
    (9 <= u && u <= 13) || u == 32 || u == 0x85 || u == 0xA0 || u == 0x1680 || (0x2000 <= u
        && u <= 0x200A) || u == 0x2028 || u == 0x2029 || u == 0x202F || u == 0x205F || u == 0x3000
}

/// Classifies the field that occupies `line[0..end]`.
pub fn classify_field(line: &[char], end: usize) -> (r: Field)
    requires
        end <= line@.len(),
    ensures
        r == field_kind(line@.subrange(0, end as int)),
{
    let ghost f = line@.subrange(0, end as int);
    if end == 2 && line[0] == 'i' && line[1] == 'd' {
        assert(f =~= word_id());
        Field::Id
    } else if end == 5 && line[0] == 'e' && line[1] == 'v' && line[2] == 'e' && line[3] == 'n'
        && line[4] == 't' {
        assert(f =~= word_event());
        assert(f != word_id());
        Field::Event
    } else if end == 4 && line[0] == 'd' && line[1] == 'a' && line[2] == 't' && line[3] == 'a' {
        assert(f =~= word_data());
        assert(f != word_id());
        assert(f != word_event());
        Field::Data
    } else {
        assert(f != word_id() && f != word_event() && f != word_data()) by {
            assert(f.len() == end);
            if f == word_id() {
                assert(f[0] == line@[0] && f[1] == line@[1]);
            }
            if f == word_event() {
                assert(f[0] == line@[0] && f[1] == line@[1] && f[2] == line@[2]);
                assert(f[3] == line@[3] && f[4] == line@[4]);
            }
            if f == word_data() {
                assert(f[0] == line@[0] && f[1] == line@[1] && f[2] == line@[2]);
                assert(f[3] == line@[3]);
            }
        }
        Field::Other
    }
}

/// Index of the first colon of the line, or its length when there is none.
pub fn find_colon(line: &[char]) -> (r: usize)
    ensures
        r as int == colon_from(line@, 0),
        r <= line@.len(),
{
    let mut i: usize = 0;
    while i < line.len() && line[i] != ':'
        invariant
            i <= line@.len(),
            colon_from(line@, i as int) == colon_from(line@, 0),
        decreases line@.len() - i,
    {
        i = i + 1;
    }
    i
}

/// Skips white space from `i` on.
pub fn skip_spaces(line: &[char], i: usize) -> (r: usize)
    requires
        i <= line@.len(),
    ensures
        r as int == space_end(line@, i as int),
        r <= line@.len(),
{
    let mut j: usize = i;
    while j < line.len() && is_space_char(line[j])
        invariant
            i <= j <= line@.len(),
            space_end(line@, j as int) == space_end(line@, i as int),
        decreases line@.len() - j,
    {
        j = j + 1;
    }
    j
}

/// Turns one physical line (without its terminator) into the event it
/// describes, or `None` when the event would carry the default name and no
/// payload.
pub fn parse_line(line: &[char]) -> (r: Option<SSEvent<String>>)
    ensures
        opt_event(r) == line_event(line@),
{
    let len = line.len();
    let colon = find_colon(line);
    let start = if colon >= len {
        len
    } else if colon + 1 < len && line[colon + 1] == ' ' {
        skip_spaces(line, colon + 2)
    } else {
        skip_spaces(line, colon)
    };
    let field = classify_field(line, colon);
    proof {
        assert(start as int == value_start(line@));
    }
    let mut value: Vec<char> = Vec::new();
    let mut i: usize = start;
    while i < len
        invariant
            start <= i <= len,
            len == line@.len(),
            value@ =~= line@.subrange(start as int, i as int),
        decreases len - i,
    {
        value.push(line[i]);
        i = i + 1;
    }
    assert(value@ =~= value_of(line@));
    let default_str = "message";
    proof {
        reveal_strlit("message");
    }
    let mut event = SSEvent { id: None, name: default_str.to_owned(), data: String::new() };
    assert(event.name@ =~= default_name());
    match field {
        Field::Id => {
            event.id = Some(string_of(value.as_slice()));
            None
        },
        Field::Event => {
            if value.len() == 7 && value[0] == 'm' && value[1] == 'e' && value[2] == 's'
                && value[3] == 's' && value[4] == 'a' && value[5] == 'g' && value[6] == 'e' {
                assert(value@ =~= default_name());
                None
            } else {
                assert(value@ != default_name()) by {
                    if value@ == default_name() {
                        assert(value@[0] == 'm' && value@[1] == 'e' && value@[2] == 's'
                            && value@[3] == 's' && value@[4] == 'a' && value@[5] == 'g'
                            && value@[6] == 'e');
                    }
                }
                event.name = string_of(value.as_slice());
                Some(event)
            }
        },
        Field::Data => {
            value.push('\n');
            event.data = string_of(value.as_slice());
            Some(event)
        },
        Field::Other => None,
    }
}

} // verus!

//! The known-hosts file: its entries as they are shown, and the removal of a
//! line.
//!
//! A line of the file holds, separated by white space, an optional marker
//! that starts with `@`, the host names, the key type, the key, and possibly
//! a comment.

use vstd::prelude::*;
use vstd::string::{StringExecFns, StringSliceAdditionalSpecFns};
use vstd::utf8::{decode_utf8, encode_utf8, is_char_boundary};

verus! {

/// `String::push` of the standard library appends one character to the text.
pub assume_specification[ String::push ](s: &mut String, c: char)
    ensures
        final(s)@ == old(s)@.push(c),
;

/// One entry of the known-hosts file, as it is shown.
#[derive(Debug, Clone, PartialEq, Eq)]
pub struct KnownHostEntry {
    /// Number of the entry's line in the file, counted from one.
    pub line_number: usize,
    pub marker: String,
    pub hostnames: String,
    pub key_type: String,
    pub key_preview: String,
}

/// The mathematical content of a `KnownHostEntry`.
pub struct EntryView {
    pub line_number: int,
    pub marker: Seq<char>,
    pub hostnames: Seq<char>,
    pub key_type: Seq<char>,
    pub key_preview: Seq<char>,
}

impl View for KnownHostEntry {
    type V = EntryView;

    open spec fn view(&self) -> EntryView {
        EntryView {
            line_number: self.line_number as int,
            marker: self.marker@,
            hostnames: self.hostnames@,
            key_type: self.key_type@,
            key_preview: self.key_preview@,
        }
    }
}

/// The views of a sequence of entries.
pub open spec fn entry_views(entries: Seq<KnownHostEntry>) -> Seq<EntryView> {
    entries.map_values(|e: KnownHostEntry| e@)
}

/// The texts of a sequence of character vectors.
pub open spec fn texts(parts: Seq<Vec<char>>) -> Seq<Seq<char>> {
    parts.map_values(|p: Vec<char>| p@)
}

/// Why a line could not be removed.
#[derive(Debug, Clone, Copy, PartialEq, Eq, Structural)]
pub enum KnownHostsError {
    /// The line number is zero or beyond the last line.
    InvalidLineNumber,
}

impl KnownHostsError {
    /// The message shown to the caller.
    pub open spec fn message_text(self) -> Seq<char> {
        "Invalid line number"@
    }

    /// The message shown to the caller.
    pub fn message(&self) -> (s: String)
        ensures
            s@ == self.message_text(),
    {
        String::from_str("Invalid line number")
    }
}

/// What a scan looks for.
#[derive(Debug, Clone, Copy, PartialEq, Eq, Structural)]
pub enum CharClass {
    /// The line feed.
    Newline,
    /// A white-space character.
    Space,
    /// Any other character.
    Visible,
}

/// Whether a character is white space, as Unicode defines it.
pub open spec fn is_whitespace(c: char) -> bool {
    let u = c as u32;
    ||| 0x09 <= u <= 0x0d
    ||| u == 0x20
    ||| u == 0x85
    ||| u == 0xa0
    ||| u == 0x1680
    ||| 0x2000 <= u <= 0x200a
    ||| u == 0x2028
    ||| u == 0x2029
    ||| u == 0x202f
    ||| u == 0x205f
    ||| u == 0x3000
}

/// Whether a character belongs to a class.
pub open spec fn in_class(c: char, class: CharClass) -> bool {
    match class {
        CharClass::Newline => c == '\n',
        CharClass::Space => is_whitespace(c),
        CharClass::Visible => !is_whitespace(c),
    }
}

/// The first position at or after `from` that holds a character of the class,
/// or the length of the text where there is none.
pub open spec fn next_of(text: Seq<char>, from: int, class: CharClass) -> int
    decreases text.len() - from,
{
    if from < 0 || from >= text.len() {
        text.len() as int
    } else if in_class(text[from], class) {
        from
    } else {
        next_of(text, from + 1, class)
    }
}

/// Where a scan from a position within the text ends up.
pub proof fn lemma_next_of(text: Seq<char>, from: int, class: CharClass)
    requires
        0 <= from <= text.len(),
    ensures
        from <= next_of(text, from, class) <= text.len(),
        next_of(text, from, class) < text.len() ==> in_class(
            text[next_of(text, from, class)],
            class,
        ),
        forall|k: int| from <= k < next_of(text, from, class) ==> !in_class(#[trigger] text[k], class),
    decreases text.len() - from,
{
    if from < text.len() && !in_class(text[from], class) {
        lemma_next_of(text, from + 1, class);
    }
}

/// The line that stands between two positions of a text and is ended at
/// `end`: without the carriage return before a line feed.
pub open spec fn line_between(text: Seq<char>, from: int, end: int) -> Seq<char> {
    if end < text.len() && from < end && text[end - 1] == '\r' {
        text.subrange(from, end - 1)
    } else {
        text.subrange(from, end)
    }
}

/// The lines of a text from a position on. A line ends at a line feed, or at
/// a carriage return followed by a line feed, or with the text.
pub open spec fn lines_from(text: Seq<char>, from: int) -> Seq<Seq<char>>
    decreases text.len() - from,
    when 0 <= from
    via lines_from_decreases
{
    if from >= text.len() {
        Seq::empty()
    } else {
        let end = next_of(text, from, CharClass::Newline);
        if end >= text.len() {
            seq![line_between(text, from, end)]
        } else {
            seq![line_between(text, from, end)] + lines_from(text, end + 1)
        }
    }
}

/// A line ends at or after the position it starts at.
#[via_fn]
proof fn lines_from_decreases(text: Seq<char>, from: int) {
    if 0 <= from < text.len() {
        lemma_next_of(text, from, CharClass::Newline);
    }
}

/// The lines of a text.
pub open spec fn lines(text: Seq<char>) -> Seq<Seq<char>> {
    lines_from(text, 0)
}

/// The fields of a line from a position on: the runs of characters that are
/// not white space.
pub open spec fn fields_from(line: Seq<char>, from: int) -> Seq<Seq<char>>
    decreases line.len() - from,
    when 0 <= from
    via fields_from_decreases
{
    let start = next_of(line, from, CharClass::Visible);
    if from >= line.len() || start >= line.len() {
        Seq::empty()
    } else {
        let end = next_of(line, start, CharClass::Space);
        seq![line.subrange(start, end)] + fields_from(line, end)
    }
}

/// A field ends after the position it starts at.
#[via_fn]
proof fn fields_from_decreases(line: Seq<char>, from: int) {
    if 0 <= from < line.len() {
        lemma_next_of(line, from, CharClass::Visible);
        let start = next_of(line, from, CharClass::Visible);
        if start < line.len() {
            lemma_next_of(line, start, CharClass::Space);
        }
    }
}

/// The fields of a line.
pub open spec fn fields(line: Seq<char>) -> Seq<Seq<char>> {
    fields_from(line, 0)
}

/// How a key is shown: one of more than twenty bytes of UTF-8 by its first
/// ten bytes and its last ten, with three dots between them. A key that
/// cannot be cut there, because a cut would fall inside a character, is
/// shown whole.
pub open spec fn key_preview(key: Seq<char>) -> Seq<char> {
    let bytes = encode_utf8(key);
    let cut = bytes.len() - 10;
    if bytes.len() > 20 && is_char_boundary(bytes, 10) && is_char_boundary(bytes, cut) {
        decode_utf8(bytes.subrange(0, 10)) + seq!['.', '.', '.'] + decode_utf8(
            bytes.subrange(cut, bytes.len() as int),
        )
    } else {
        key
    }
}

/// The entry that a line holds, if it holds one: not a comment, which starts
/// with `#`, and with the three fields of an entry, after the marker if the
/// first field is one.
pub open spec fn entry_of(line: Seq<char>, number: int) -> Option<EntryView> {
    let parts = fields(line);
    if line.len() > 0 && line[0] == '#' {
        None
    } else if parts.len() >= 4 && parts[0].len() > 0 && parts[0][0] == '@' {
        Some(
            EntryView {
                line_number: number,
                marker: parts[0],
                hostnames: parts[1],
                key_type: parts[2],
                key_preview: key_preview(parts[3]),
            },
        )
    } else if parts.len() >= 3 && !(parts[0].len() > 0 && parts[0][0] == '@') {
        Some(
            EntryView {
                line_number: number,
                marker: Seq::empty(),
                hostnames: parts[0],
                key_type: parts[1],
                key_preview: key_preview(parts[2]),
            },
        )
    } else {
        None
    }
}

/// The entries of a sequence of lines, each with the number of its line.
pub open spec fn entries_of(lines: Seq<Seq<char>>) -> Seq<EntryView>
    decreases lines.len(),
{
    if lines.len() == 0 {
        Seq::empty()
    } else {
        let before = entries_of(lines.drop_last());
        match entry_of(lines.last(), lines.len() as int) {
            Some(entry) => before.push(entry),
            None => before,
        }
    }
}

/// The lines joined again, with a line feed between each two.
pub open spec fn joined_lines(lines: Seq<Seq<char>>) -> Seq<char>
    decreases lines.len(),
{
    if lines.len() == 0 {
        Seq::empty()
    } else if lines.len() == 1 {
        lines[0]
    } else {
        joined_lines(lines.drop_last()) + seq!['\n'] + lines.last()
    }
}

/// The text without its line of the given number: the other lines, joined by
/// line feeds, and ended by a line feed if the text was.
pub open spec fn without_line(text: Seq<char>, number: int) -> Seq<char> {
    let kept = joined_lines(lines(text).remove(number - 1));
    if text.len() > 0 && text.last() == '\n' {
        kept.push('\n')
    } else {
        kept
    }
}

/// The characters of a text.
fn chars_of(text: &str) -> (chars: Vec<char>)
    ensures
        chars@ == text@,
{
    let mut chars: Vec<char> = Vec::new();
    for c in it: text.chars()
        invariant
            chars@ == it.seq().take(it.index() as int),
            it.seq() == text@,
    {
        chars.push(c);
    }
    chars
}

/// The characters between two positions.
fn slice_of(chars: &Vec<char>, from: usize, to: usize) -> (part: Vec<char>)
    requires
        from <= to <= chars@.len(),
    ensures
        part@ == chars@.subrange(from as int, to as int),
{
    let mut part: Vec<char> = Vec::new();
    let mut i: usize = from;
    while i < to
        invariant
            from <= i <= to <= chars@.len(),
            part@ == chars@.subrange(from as int, i as int),
        decreases to - i,
    {
        part.push(chars[i]);
        i = i + 1;
    }
    part
}

/// Appends the characters between two positions to a text.
fn append_chars(out: &mut String, chars: &Vec<char>, from: usize, to: usize)
    requires
        from <= to <= chars@.len(),
    ensures
        final(out)@ == old(out)@ + chars@.subrange(from as int, to as int),
{
    let mut i: usize = from;
    while i < to
        invariant
            from <= i <= to <= chars@.len(),
            out@ == old(out)@ + chars@.subrange(from as int, i as int),
        decreases to - i,
    {
        out.push(chars[i]);
        i = i + 1;
    }
}

/// The text of a vector of characters.
fn text_of(chars: &Vec<char>) -> (s: String)
    ensures
        s@ == chars@,
{
    let mut s = String::new();
    append_chars(&mut s, chars, 0, chars.len());
    s
}

/// Whether a character is white space.
fn is_space(c: char) -> (b: bool)
    ensures
        b == is_whitespace(c),
{
    let u: u32 = c as u32;
    (0x09 <= u && u <= 0x0d) || u == 0x20 || u == 0x85 || u == 0xa0 || u == 0x1680 || (0x2000 <= u
        && u <= 0x200a) || u == 0x2028 || u == 0x2029 || u == 0x202f || u == 0x205f || u == 0x3000
}

/// Whether a character belongs to a class.
fn belongs(c: char, class: CharClass) -> (b: bool)
    ensures
        b == in_class(c, class),
{
    match class {
        CharClass::Newline => c == '\n',
        CharClass::Space => is_space(c),
        CharClass::Visible => !is_space(c),
    }
}

/// Finds the first character of a class at or after a position.
fn scan(text: &Vec<char>, from: usize, class: CharClass) -> (at: usize)
    requires
        from <= text@.len(),
    ensures
        at == next_of(text@, from as int, class),
        from <= at <= text@.len(),
{
    let mut at: usize = from;
    while at < text.len() && !belongs(text[at], class)
        invariant
            from <= at <= text@.len(),
            next_of(text@, from as int, class) == next_of(text@, at as int, class),
        decreases text@.len() - at,
    {
        at = at + 1;
    }
    at
}

/// Splits a text into its lines.
fn split_lines(text: &Vec<char>) -> (found: Vec<Vec<char>>)
    ensures
        texts(found@) == lines(text@),
        found@.len() <= text@.len(),
{
    let mut found: Vec<Vec<char>> = Vec::new();
    let mut from: usize = 0;
    while from < text.len()
        invariant
            from <= text@.len(),
            found@.len() <= from,
            texts(found@) + lines_from(text@, from as int) == lines(text@),
        decreases text@.len() - from,
    {
        let end: usize = scan(text, from, CharClass::Newline);
        let stop: usize = if end < text.len() && from < end && text[end - 1] == '\r' {
            end - 1
        } else {
            end
        };
        let ghost before = found@;
        let line = slice_of(text, from, stop);
        found.push(line);
        let next: usize = if end < text.len() {
            end + 1
        } else {
            end
        };
        assert(texts(found@) + lines_from(text@, next as int) =~= texts(before) + lines_from(
            text@,
            from as int,
        ));
        from = next;
    }
    found
}

/// Splits a line into its fields.
fn split_fields(line: &Vec<char>) -> (found: Vec<Vec<char>>)
    ensures
        texts(found@) == fields(line@),
{
    let mut found: Vec<Vec<char>> = Vec::new();
    let mut from: usize = 0;
    while from < line.len()
        invariant
            from <= line@.len(),
            texts(found@) + fields_from(line@, from as int) == fields(line@),
        decreases line@.len() - from,
    {
        let start: usize = scan(line, from, CharClass::Visible);
        if start >= line.len() {
            return found;
        }
        proof {
            lemma_next_of(line@, from as int, CharClass::Visible);
            lemma_next_of(line@, start as int, CharClass::Space);
        }
        let end: usize = scan(line, start, CharClass::Space);
        let ghost before = found@;
        let field = slice_of(line, start, end);
        found.push(field);
        assert(texts(found@) + fields_from(line@, end as int) =~= texts(before) + fields_from(
            line@,
            from as int,
        ));
        from = end;
    }
    found
}

/// Makes the preview of a key.
fn preview_of(key: &Vec<char>) -> (s: String)
    ensures
        s@ == key_preview(key@),
{
    let text = text_of(key);
    let whole = text.as_str();
    let len: usize = whole.as_bytes().len();
    if len > 20 && whole.is_char_boundary(10) && whole.is_char_boundary(len - 10) {
        let (head, _) = whole.split_at(10);
        let (_, tail) = whole.split_at(len - 10);
        let shown = String::from_str(head).concat("...").concat(tail);
        proof {
            vstd::utf8::encode_utf8_decode_utf8(head@);
            vstd::utf8::encode_utf8_decode_utf8(tail@);
            reveal_strlit("...");
        }
        shown
    } else {
        text
    }
}

/// Reads the entry that a line holds, if it holds one.
fn read_entry(line: &Vec<char>, number: usize) -> (entry: Option<KnownHostEntry>)
    ensures
        match entry {
            Some(e) => entry_of(line@, number as int) == Some(e@),
            None => entry_of(line@, number as int) is None,
        },
{
    if line.len() > 0 && line[0] == '#' {
        return None;
    }
    let parts = split_fields(line);
    let marked: bool = parts.len() > 0 && parts[0].len() > 0 && parts[0][0] == '@';
    if marked && parts.len() >= 4 {
        Some(
            KnownHostEntry {
                line_number: number,
                marker: text_of(&parts[0]),
                hostnames: text_of(&parts[1]),
                key_type: text_of(&parts[2]),
                key_preview: preview_of(&parts[3]),
            },
        )
    } else if !marked && parts.len() >= 3 {
        Some(
            KnownHostEntry {
                line_number: number,
                marker: String::new(),
                hostnames: text_of(&parts[0]),
                key_type: text_of(&parts[1]),
                key_preview: preview_of(&parts[2]),
            },
        )
    } else {
        None
    }
}

/// Reads the entries of a known-hosts file.
///
/// Blank lines, comments and lines with too few fields hold no entry. Every
/// other line gives one entry, under the number of the line.
pub fn load_known_hosts(content: &str) -> (entries: Vec<KnownHostEntry>)
    ensures
        entry_views(entries@) == entries_of(lines(content@)),
{
    let text = chars_of(content);
    let all = split_lines(&text);
    let mut entries: Vec<KnownHostEntry> = Vec::new();
    let mut i: usize = 0;
    while i < all.len()
        invariant
            i <= all@.len(),
            entry_views(entries@) == entries_of(texts(all@).take(i as int)),
        decreases all@.len() - i,
    {
        assert(texts(all@).take(i + 1).drop_last() =~= texts(all@).take(i as int));
        match read_entry(&all[i], i + 1) {
            Some(entry) => {
                entries.push(entry);
            },
            None => {},
        }
        i = i + 1;
    }
    assert(texts(all@).take(i as int) =~= texts(all@));
    entries
}

/// Removes the line of the given number, counted from one, from the text of
/// a known-hosts file.
///
/// Fails exactly when the number is zero or beyond the last line.
pub fn delete_known_host_entry(content: &str, line_number: usize) -> (r: Result<
    String,
    KnownHostsError,
>)
    ensures
        r is Ok <==> 1 <= line_number <= lines(content@).len(),
        r matches Ok(s) ==> s@ == without_line(content@, line_number as int),
        r matches Err(e) ==> e == KnownHostsError::InvalidLineNumber,
{
    let text = chars_of(content);
    let all = split_lines(&text);
    if line_number == 0 || line_number > all.len() {
        return Err(KnownHostsError::InvalidLineNumber);
    }
    let ghost kept = texts(all@).remove(line_number - 1);
    let mut out = String::new();
    let mut i: usize = 0;
    let mut written: usize = 0;
    while i < all.len()
        invariant
            i <= all@.len(),
            1 <= line_number <= all@.len(),
            kept == texts(all@).remove(line_number - 1),
            written == if i < line_number {
                i
            } else {
                (i - 1) as usize
            },
            out@ == joined_lines(kept.take(written as int)),
        decreases all@.len() - i,
    {
        if i != line_number - 1 {
            let ghost grown = kept.take(written + 1);
            assert(grown.drop_last() =~= kept.take(written as int));
            assert(grown.last() == all@[i as int]@);
            if written > 0 {
                out.push('\n');
            }
            append_chars(&mut out, &all[i], 0, all[i].len());
            assert(out@ =~= joined_lines(grown));
            written = written + 1;
        }
        i = i + 1;
    }
    assert(kept.take(written as int) =~= kept);
    if text.len() > 0 && text[text.len() - 1] == '\n' {
        out.push('\n');
    }
    Ok(out)
}

} // verus!

//! The SQL editor's text logic: where a word starts and ends, which line and
//! column the cursor is on, how a completion replaces the word under the
//! cursor, and how the command history is walked.
//!
//! Cursor positions are byte offsets into the UTF-8 text, as the editor's
//! callers hold them. A position behind the end of the text counts as the
//! end. A position between the bytes of one character is no cursor position:
//! the functions that cut the text at the cursor ask for `cursor_ok`.

use crate::text::{
    byte_len, byte_length, byte_offset, char_index, chars_of, decimal, is_alnum, is_boundary,
    is_space, lemma_byte_len_concat, lemma_byte_offset_monotonic, locate, offset_of,
    push_decimal, push_range, push_str, string_of,
};
use vstd::prelude::*;
use vstd::string::StrSliceExecFns;

verus! {

/// The mode of the editor.
#[derive(Debug, Clone, Copy, PartialEq, Eq, Structural)]
pub enum EditorMode {
    /// Keys move the cursor and give commands.
    Normal,
    /// Keys insert text.
    Insert,
}

impl EditorMode {
    /// The three letters that show the mode.
    pub open spec fn label_text(self) -> Seq<char> {
        match self {
            EditorMode::Normal => "NOR"@,
            EditorMode::Insert => "INS"@,
        }
    }

    /// The three letters that show the mode.
    pub fn label(&self) -> (r: &'static str)
        ensures
            r@ == self.label_text(),
    {
        match self {
            EditorMode::Normal => "NOR",
            EditorMode::Insert => "INS",
        }
    }
}

impl Default for EditorMode {
    fn default() -> (r: Self)
        ensures
            r == EditorMode::Normal,
    {
        EditorMode::Normal
    }
}

/// Whether `c` belongs to a word: a letter, a digit or `_`.
pub open spec fn is_word_char(c: char) -> bool {
    is_alnum(c) || c == '_'
}

/// Whether `c` belongs to a word.
pub fn word_char(c: char) -> (r: bool)
    ensures
        r == is_word_char(c),
{
    c.is_alphanumeric() || c == '_'
}

/// The start of the run of word characters that ends at index `k`.
pub open spec fn word_start(s: Seq<char>, k: int) -> int
    decreases k,
{
    if 0 < k <= s.len() && is_word_char(s[k - 1]) {
        word_start(s, k - 1)
    } else {
        k
    }
}

/// The end of the run of word characters that starts at index `i`.
pub open spec fn word_end(s: Seq<char>, i: int) -> int
    decreases s.len() - i,
{
    if 0 <= i < s.len() && is_word_char(s[i]) {
        word_end(s, i + 1)
    } else {
        i
    }
}

/// The end of the run of whitespace that starts at index `i`.
pub open spec fn space_end(s: Seq<char>, i: int) -> int
    decreases s.len() - i,
{
    if 0 <= i < s.len() && is_space(s[i]) {
        space_end(s, i + 1)
    } else {
        i
    }
}

/// The start of the run of whitespace that ends at index `k`.
pub open spec fn space_start(s: Seq<char>, k: int) -> int
    decreases k,
{
    if 0 < k <= s.len() && is_space(s[k - 1]) {
        space_start(s, k - 1)
    } else {
        k
    }
}

/// `word_start` goes back inside the text, over word characters only.
pub proof fn lemma_word_start(s: Seq<char>, k: int)
    requires
        0 <= k <= s.len(),
    ensures
        0 <= word_start(s, k) <= k,
        forall|j: int| word_start(s, k) <= j < k ==> is_word_char(#[trigger] s[j]),
        word_start(s, k) > 0 ==> !is_word_char(s[word_start(s, k) - 1]),
    decreases k,
{
    if 0 < k && is_word_char(s[k - 1]) {
        lemma_word_start(s, k - 1);
    }
}

/// The index of the first character of the run of word characters that ends
/// at `k`.
pub fn find_word_start(v: &Vec<char>, k: usize) -> (w: usize)
    requires
        k <= v.len(),
    ensures
        w == word_start(v@, k as int),
        w <= k,
{
    let mut w: usize = k;
    while w > 0 && word_char(v[w - 1])
        invariant
            w <= k <= v.len(),
            word_start(v@, w as int) == word_start(v@, k as int),
        decreases w,
    {
        w -= 1;
    }
    w
}

/// The cursor position `pos`, brought back to the end of the text if it lies
/// behind it.
pub open spec fn clamped(s: Seq<char>, pos: usize) -> int {
    if pos < byte_len(s) {
        pos as int
    } else {
        byte_len(s) as int
    }
}

/// Whether `pos` is a cursor position in `s`: the start of a character, or
/// the end of the text or behind it.
pub open spec fn cursor_ok(s: Seq<char>, pos: usize) -> bool {
    is_boundary(s, clamped(s, pos))
}

/// The index of the character under the cursor.
pub open spec fn cursor_index(s: Seq<char>, pos: usize) -> int {
    char_index(s, clamped(s, pos))
}

/// Whether `pos` is a cursor position in `text`.
pub fn is_cursor(text: &str, pos: usize) -> (r: bool)
    ensures
        r == cursor_ok(text@, pos),
{
    let total = byte_length(text);
    let at: usize = if pos < total {
        pos
    } else {
        total
    };
    let v = chars_of(text);
    let (_, exact) = locate(&v, at);
    exact
}

/// The index of the character under the cursor at `pos`, and the characters
/// of the text.
fn cursor_in(text: &str, pos: usize) -> (r: (Vec<char>, usize))
    requires
        cursor_ok(text@, pos),
    ensures
        r.0@ == text@,
        r.1 == cursor_index(text@, pos),
        r.1 <= text@.len(),
        byte_offset(text@, r.1 as int) == clamped(text@, pos),
        byte_len(text@) <= usize::MAX,
{
    let total = byte_length(text);
    let at: usize = if pos < total {
        pos
    } else {
        total
    };
    let v = chars_of(text);
    let (k, _) = locate(&v, at);
    (v, k)
}

/// `s` with the word that ends at the cursor replaced by `insert` and a
/// space.
pub open spec fn completed(s: Seq<char>, pos: usize, insert: Seq<char>) -> Seq<char> {
    let k = cursor_index(s, pos);
    s.take(word_start(s, k)) + insert + seq![' '] + s.skip(k)
}

/// The cursor position behind a completion: behind the space that follows
/// `insert`.
pub open spec fn completed_cursor(s: Seq<char>, pos: usize, insert: Seq<char>) -> nat {
    byte_offset(s, word_start(s, cursor_index(s, pos))) + byte_len(insert) + 1
}

/// Replaces the word that ends at the cursor by `insert_text` and a space, and
/// returns the cursor position behind them.
pub fn apply_completion_at_cursor(text: &mut String, cursor_pos: usize, insert_text: &str) -> (r:
    usize)
    requires
        cursor_ok(old(text)@, cursor_pos),
    ensures
        final(text)@ == completed(old(text)@, cursor_pos, insert_text@),
        r == completed_cursor(old(text)@, cursor_pos, insert_text@),
{
    let (v, k) = cursor_in(text.as_str(), cursor_pos);
    let w = find_word_start(&v, k);
    let mut out: Vec<char> = Vec::new();
    push_range(&mut out, &v, 0, w);
    push_str(&mut out, insert_text);
    out.push(' ');
    let n: usize = v.len();
    push_range(&mut out, &v, k, n);
    let ghost head = v@.take(w as int);
    let ghost tail = v@.skip(k as int);
    assert(out@ =~= head + insert_text@ + seq![' '] + tail);
    let result = string_of(&out);
    let total = byte_length(result.as_str());
    let start = offset_of(&v, w);
    let inserted = byte_length(insert_text);
    proof {
        lemma_byte_len_concat(head + insert_text@ + seq![' '], tail);
        lemma_byte_len_concat(head + insert_text@, seq![' ']);
        lemma_byte_len_concat(head, insert_text@);
        assert(seq![' '].drop_last() =~= Seq::<char>::empty());
        assert(byte_len(seq![' '].drop_last()) == 0);
        assert(byte_len(seq![' ']) == 1);
    }
    *text = result;
    start + inserted + 1
}

/// The word that ends at the end of `s`.
pub open spec fn current_word(s: Seq<char>) -> Seq<char> {
    s.skip(word_start(s, s.len() as int))
}

/// The word that is being typed: the run of word characters at the end of
/// `text`.
pub fn get_current_word(text: &str) -> (word: &str)
    ensures
        word@ == current_word(text@),
{
    let v = chars_of(text);
    let n: usize = v.len();
    let w = find_word_start(&v, n);
    let word = text.substring_char(w, n);
    assert(text@.subrange(w as int, n as int) =~= text@.skip(w as int));
    word
}

/// How many `'\n'` there are in `s`.
pub open spec fn newline_count(s: Seq<char>) -> nat
    decreases s.len(),
{
    if s.len() == 0 {
        0
    } else {
        newline_count(s.drop_last()) + if s.last() == '\n' {
            1nat
        } else {
            0nat
        }
    }
}

/// There are no more line breaks than characters.
pub proof fn lemma_newline_count_bound(s: Seq<char>)
    ensures
        newline_count(s) <= s.len(),
    decreases s.len(),
{
    if s.len() > 0 {
        lemma_newline_count_bound(s.drop_last());
    }
}

/// How many `'\n'` there are in `s[i..]`.
pub open spec fn newlines_from(s: Seq<char>, i: int) -> nat
    decreases s.len() - i,
{
    if 0 <= i < s.len() {
        newlines_from(s, i + 1) + if s[i] == '\n' {
            1nat
        } else {
            0nat
        }
    } else {
        0
    }
}

/// Counting the line breaks from the front gives the same as counting them
/// from the back.
pub proof fn lemma_newlines_from(s: Seq<char>, i: int)
    requires
        0 <= i <= s.len(),
    ensures
        newline_count(s.take(i)) + newlines_from(s, i) == newline_count(s),
    decreases s.len() - i,
{
    if i < s.len() {
        lemma_newlines_from(s, i + 1);
        assert(s.take(i + 1).drop_last() =~= s.take(i));
        assert(s.take(i + 1).last() == s[i]);
    } else {
        assert(s.take(i) =~= s);
    }
}

/// The number of lines of `s[start..]`, given that `s[start..i]` holds no line
/// break: one for each line break from `i` on, and one more for what follows
/// the last line break, if anything does.
pub proof fn lemma_lines_from_len(s: Seq<char>, start: int, i: int)
    requires
        0 <= start <= i <= s.len(),
    ensures
        crate::text::lines_from(s, start, i).len() == newlines_from(s, i) + if newlines_from(s, i)
            == 0 {
            if start < s.len() {
                1nat
            } else {
                0nat
            }
        } else if s.last() == '\n' {
            0nat
        } else {
            1nat
        },
    decreases s.len() - i,
{
    if i < s.len() {
        if s[i] == '\n' {
            lemma_lines_from_len(s, i + 1, i + 1);
            if newlines_from(s, i + 1) == 0 {
                if i + 1 < s.len() {
                    lemma_no_newline_at_end(s, i + 1);
                }
            }
        } else {
            lemma_lines_from_len(s, start, i + 1);
        }
    }
}

/// A text without a line break from `i` on does not end in one.
proof fn lemma_no_newline_at_end(s: Seq<char>, i: int)
    requires
        0 <= i < s.len(),
        newlines_from(s, i) == 0,
    ensures
        s.last() != '\n',
    decreases s.len() - i,
{
    if i + 1 < s.len() {
        lemma_no_newline_at_end(s, i + 1);
    }
}

/// The editor shows as many lines as the text has, and one more if the text
/// ends in a line break; an empty text shows one line.
pub proof fn lemma_count_lines(s: Seq<char>)
    ensures
        newline_count(s) + 1 == if s.len() == 0 {
            1nat
        } else {
            (if crate::text::lines(s).len() > 1 {
                crate::text::lines(s).len()
            } else {
                1nat
            }) + if s.last() == '\n' {
                1nat
            } else {
                0nat
            }
        },
{
    lemma_newlines_from(s, 0);
    lemma_lines_from_len(s, 0, 0);
    assert(s.take(0) =~= Seq::<char>::empty());
}

/// How many `'\n'` there are in `v[..k]`.
fn count_newlines(v: &Vec<char>, k: usize) -> (n: usize)
    requires
        k <= v.len(),
    ensures
        n == newline_count(v@.take(k as int)),
        n <= k,
{
    let mut n: usize = 0;
    let mut i: usize = 0;
    assert(v@.take(0) =~= Seq::<char>::empty());
    while i < k
        invariant
            i <= k <= v.len(),
            n <= i,
            n == newline_count(v@.take(i as int)),
        decreases k - i,
    {
        assert(v@.take(i as int + 1).drop_last() =~= v@.take(i as int));
        if v[i] == '\n' {
            n += 1;
        }
        i += 1;
    }
    n
}

/// How many lines the editor shows for `text`: one more than there are line
/// breaks.
pub fn count_lines(text: &str) -> (n: usize)
    requires
        newline_count(text@) < usize::MAX,
    ensures
        n == newline_count(text@) + 1,
{
    let v = chars_of(text);
    let k: usize = v.len();
    assert(v@.take(k as int) =~= v@);
    count_newlines(&v, k) + 1
}

/// The index behind the last `'\n'` before index `k`, or 0.
pub open spec fn line_start(s: Seq<char>, k: int) -> int
    decreases k,
{
    if 0 < k <= s.len() && s[k - 1] != '\n' {
        line_start(s, k - 1)
    } else {
        k
    }
}

/// The index of the first `'\n'` at or after index `i`, or the length.
pub open spec fn line_stop(s: Seq<char>, i: int) -> int
    decreases s.len() - i,
{
    if 0 <= i < s.len() && s[i] != '\n' {
        line_stop(s, i + 1)
    } else {
        i
    }
}

/// `line_start` goes back inside the text.
pub proof fn lemma_line_start(s: Seq<char>, k: int)
    requires
        0 <= k <= s.len(),
    ensures
        0 <= line_start(s, k) <= k,
    decreases k,
{
    if 0 < k && s[k - 1] != '\n' {
        lemma_line_start(s, k - 1);
    }
}

/// `line_stop` goes forward inside the text.
pub proof fn lemma_line_stop(s: Seq<char>, i: int)
    requires
        0 <= i <= s.len(),
    ensures
        i <= line_stop(s, i) <= s.len(),
    decreases s.len() - i,
{
    if i < s.len() && s[i] != '\n' {
        lemma_line_stop(s, i + 1);
    }
}

/// The index behind the last `'\n'` before index `k`, or 0.
fn find_line_start(v: &Vec<char>, k: usize) -> (a: usize)
    requires
        k <= v.len(),
    ensures
        a == line_start(v@, k as int),
        a <= k,
{
    let mut a: usize = k;
    while a > 0 && v[a - 1] != '\n'
        invariant
            a <= k <= v.len(),
            line_start(v@, a as int) == line_start(v@, k as int),
        decreases a,
    {
        a -= 1;
    }
    a
}

/// The index of the first `'\n'` at or after index `i`, or the length.
fn find_line_stop(v: &Vec<char>, i: usize) -> (b: usize)
    requires
        i <= v.len(),
    ensures
        b == line_stop(v@, i as int),
        i <= b <= v.len(),
{
    let mut b: usize = i;
    while b < v.len() && v[b] != '\n'
        invariant
            i <= b <= v.len(),
            line_stop(v@, b as int) == line_stop(v@, i as int),
        decreases v.len() - b,
    {
        b += 1;
    }
    b
}

/// The line and the column of the cursor, both counted from 1: the line is
/// one more than the line breaks before the cursor, the column one more than
/// the characters between the start of the line and the cursor.
pub fn get_cursor_position(text: &str, cursor_pos: usize) -> (r: (usize, usize))
    requires
        cursor_ok(text@, cursor_pos),
        newline_count(text@.take(cursor_index(text@, cursor_pos))) < usize::MAX,
        cursor_index(text@, cursor_pos) - line_start(text@, cursor_index(text@, cursor_pos))
            < usize::MAX,
    ensures
        ({
            let k = cursor_index(text@, cursor_pos);
            &&& r.0 == newline_count(text@.take(k)) + 1
            &&& r.1 == k - line_start(text@, k) + 1
        }),
{
    let (v, k) = cursor_in(text, cursor_pos);
    let line = count_newlines(&v, k) + 1;
    let start = find_line_start(&v, k);
    (line, k - start + 1)
}

/// The byte offsets at which the line under the cursor starts and ends: behind
/// the line break before the cursor (or 0), and at the line break at or
/// behind the cursor (or the end of the text).
pub fn get_line_bounds(text: &str, cursor_pos: usize) -> (r: (usize, usize))
    requires
        cursor_ok(text@, cursor_pos),
    ensures
        ({
            let k = cursor_index(text@, cursor_pos);
            &&& r.0 == byte_offset(text@, line_start(text@, k))
            &&& r.1 == byte_offset(text@, line_stop(text@, k))
            &&& r.0 <= clamped(text@, cursor_pos) <= r.1 <= byte_len(text@)
        }),
{
    let (v, k) = cursor_in(text, cursor_pos);
    let a = find_line_start(&v, k);
    let b = find_line_stop(&v, k);
    proof {
        lemma_byte_offset_monotonic(v@, a as int, k as int);
        lemma_byte_offset_monotonic(v@, k as int, b as int);
        lemma_byte_offset_monotonic(v@, b as int, v@.len() as int);
        assert(v@.take(v@.len() as int) =~= v@);
    }
    (offset_of(&v, a), offset_of(&v, b))
}

/// The position that the jump to the next word leads to: from `pos`, taken as
/// an index into the characters, over the rest of the word and the
/// whitespace behind it. A position at or behind the last character stays.
pub open spec fn next_word(s: Seq<char>, pos: usize) -> int {
    let p = clamped(s, pos);
    if p < s.len() {
        space_end(s, word_end(s, p))
    } else {
        p
    }
}

/// The position that the jump to the next word leads to.
pub fn next_word_pos(text: &str, cursor_pos: usize) -> (r: usize)
    ensures
        r == next_word(text@, cursor_pos),
{
    let total = byte_length(text);
    let pos: usize = if cursor_pos < total {
        cursor_pos
    } else {
        total
    };
    let v = chars_of(text);
    let n: usize = v.len();
    let mut i: usize = pos;
    if i >= n {
        return i;
    }
    while i < n && word_char(v[i])
        invariant
            n == v.len(),
            pos <= i <= n,
            word_end(v@, i as int) == word_end(v@, pos as int),
        decreases n - i,
    {
        i += 1;
    }
    let ghost mid = i;
    while i < n && v[i].is_whitespace()
        invariant
            n == v.len(),
            mid <= i <= n,
            space_end(v@, i as int) == space_end(v@, mid as int),
        decreases n - i,
    {
        i += 1;
    }
    i
}

/// The position that the jump to the previous word leads to: from `pos`,
/// taken as an index into the characters, back over whitespace and then over
/// the word before it.
pub open spec fn prev_word(s: Seq<char>, pos: usize) -> int {
    word_start(s, space_start(s, clamped(s, pos)))
}

/// The position that the jump to the previous word leads to. The position
/// must not lie behind the last character.
pub fn prev_word_pos(text: &str, cursor_pos: usize) -> (r: usize)
    requires
        clamped(text@, cursor_pos) <= text@.len(),
    ensures
        r == prev_word(text@, cursor_pos),
{
    let total = byte_length(text);
    let pos: usize = if cursor_pos < total {
        cursor_pos
    } else {
        total
    };
    let v = chars_of(text);
    let mut i: usize = pos;
    while i > 0 && v[i - 1].is_whitespace()
        invariant
            i <= pos <= v.len(),
            space_start(v@, i as int) == space_start(v@, pos as int),
        decreases i,
    {
        i -= 1;
    }
    find_word_start(&v, i)
}

/// What the editor asks its owner to do.
#[derive(Debug, Clone, Copy, PartialEq, Eq, Structural)]
pub struct SqlEditorActions {
    /// Run the statement.
    pub execute: bool,
    /// Format the text.
    pub format: bool,
    /// Empty the editor.
    pub clear: bool,
    /// Show the plan of the statement.
    pub explain: bool,
    /// Give the keyboard to the data grid.
    pub focus_to_grid: bool,
    /// Give the keyboard to the editor.
    pub request_focus: bool,
    /// The editor has used the escape key itself.
    pub escape_consumed: bool,
}

impl Default for SqlEditorActions {
    fn default() -> (r: Self)
        ensures
            r == (SqlEditorActions {
                execute: false,
                format: false,
                clear: false,
                explain: false,
                focus_to_grid: false,
                request_focus: false,
                escape_consumed: false,
            }),
    {
        SqlEditorActions {
            execute: false,
            format: false,
            clear: false,
            explain: false,
            focus_to_grid: false,
            request_focus: false,
            escape_consumed: false,
        }
    }
}

/// The keys that the editor reacts to, as pressed in one frame.
#[derive(Debug, Clone, Copy, PartialEq, Eq, Structural)]
pub struct EditorKeys {
    pub ctrl: bool,
    pub shift: bool,
    pub alt: bool,
    pub enter: bool,
    pub escape: bool,
    pub tab: bool,
    pub space: bool,
    pub f5: bool,
    pub f6: bool,
    pub arrow_up: bool,
    pub arrow_down: bool,
    pub d: bool,
    pub j: bool,
    pub k: bool,
    pub l: bool,
}

impl EditorKeys {
    /// Whether the keys ask to run the statement: `Ctrl+Enter` or `F5`.
    pub open spec fn run(self) -> bool {
        (self.ctrl && self.enter) || self.f5
    }

    /// Whether the keys ask for the entry before in the history, in normal
    /// mode: `Shift+Up` or `Shift+K`.
    pub open spec fn older(self) -> bool {
        self.shift && (self.arrow_up || self.k)
    }

    /// Whether the keys ask for the entry after in the history, in normal
    /// mode: `Shift+Down` or `Shift+J`.
    pub open spec fn newer(self) -> bool {
        self.shift && (self.arrow_down || self.j)
    }

    /// Whether the keys ask to leave the editor upwards: `K` or `Up` without
    /// `Shift`.
    pub open spec fn up(self) -> bool {
        (self.k || self.arrow_up) && !self.shift
    }

    /// Whether the keys ask for the list of completions: `Ctrl+Space` or
    /// `Alt+L`.
    pub open spec fn complete(self) -> bool {
        (self.ctrl && self.space) || (self.alt && self.l)
    }
}

/// The editor. Its functions decide what the keys of a frame do; drawing is
/// left to the caller.
pub struct SqlEditor;

/// The place in the command history and the text that goes with it.
pub struct HistoryView {
    /// The index of the entry shown, counted from the newest.
    pub index: Option<usize>,
    /// The text in the editor.
    pub text: Seq<char>,
}

impl SqlEditor {
    /// Whether the history index points at an entry, if it is set.
    pub open spec fn index_ok(history: Seq<String>, index: Option<usize>) -> bool {
        index is Some ==> index->0 < history.len()
    }

    /// One step towards older entries: from no entry to the newest, from the
    /// oldest nowhere. An empty history changes nothing.
    pub open spec fn older_entry(history: Seq<String>, at: HistoryView) -> HistoryView {
        if history.len() == 0 {
            at
        } else {
            let next: int = match at.index {
                None => 0,
                Some(i) => if i + 1 < history.len() {
                    i + 1
                } else {
                    i as int
                },
            };
            HistoryView { index: Some(next as usize), text: history[next]@ }
        }
    }

    /// One step towards newer entries: from the newest to no entry and an
    /// empty editor.
    pub open spec fn newer_entry(history: Seq<String>, at: HistoryView) -> HistoryView {
        match at.index {
            None => at,
            Some(i) => if i == 0 {
                HistoryView { index: None, text: Seq::empty() }
            } else {
                HistoryView { index: Some((i - 1) as usize), text: history[i - 1]@ }
            },
        }
    }

    /// Shows the entry before the one shown.
    pub fn history_up(
        command_history: &Vec<String>,
        history_index: &mut Option<usize>,
        sql_input: &mut String,
    )
        requires
            Self::index_ok(command_history@, *old(history_index)),
        ensures
            (HistoryView { index: *final(history_index), text: final(sql_input)@ })
                == Self::older_entry(
                command_history@,
                HistoryView { index: *old(history_index), text: old(sql_input)@ },
            ),
            Self::index_ok(command_history@, *final(history_index)),
    {
        if command_history.len() == 0 {
            return;
        }
        let next: usize = match *history_index {
            None => 0,
            Some(i) => if i + 1 < command_history.len() {
                i + 1
            } else {
                i
            },
        };
        *history_index = Some(next);
        *sql_input = command_history[next].clone();
    }

    /// Shows the entry after the one shown.
    pub fn history_down(
        command_history: &Vec<String>,
        history_index: &mut Option<usize>,
        sql_input: &mut String,
    )
        requires
            Self::index_ok(command_history@, *old(history_index)),
        ensures
            (HistoryView { index: *final(history_index), text: final(sql_input)@ })
                == Self::newer_entry(
                command_history@,
                HistoryView { index: *old(history_index), text: old(sql_input)@ },
            ),
            Self::index_ok(command_history@, *final(history_index)),
    {
        match *history_index {
            None => {},
            Some(i) => {
                if i == 0 {
                    *history_index = None;
                    *sql_input = String::new();
                } else {
                    *history_index = Some(i - 1);
                    *sql_input = command_history[i - 1].clone();
                }
            },
        }
    }

    /// The completion selected after a step down the list of `count`
    /// completions: the next, and the first after the last.
    pub fn completion_down(selected: usize, count: usize) -> (r: usize)
        requires
            count > 0,
            selected < usize::MAX,
        ensures
            r == (selected + 1) % (count as int),
            r < count,
    {
        (selected + 1) % count
    }

    /// The completion selected after a step up the list of `count`
    /// completions: the one before, and the last before the first.
    pub fn completion_up(selected: usize, count: usize) -> (r: usize)
        ensures
            r == if selected == 0 {
                if count == 0 {
                    0
                } else {
                    count - 1
                }
            } else {
                selected - 1
            },
    {
        if selected == 0 {
            if count == 0 {
                0
            } else {
                count - 1
            }
        } else {
            selected - 1
        }
    }

    /// Whether the cursor is on the first line.
    pub fn is_at_first_line(text: &str, cursor_pos: usize) -> (r: bool)
        requires
            cursor_ok(text@, cursor_pos),
        ensures
            r == (newline_count(text@.take(cursor_index(text@, cursor_pos))) == 0),
    {
        let (v, k) = cursor_in(text, cursor_pos);
        count_newlines(&v, k) == 0
    }

    /// Whether `text` holds nothing but whitespace.
    pub fn is_blank(text: &str) -> (r: bool)
        ensures
            r == crate::text::is_blank(text@),
    {
        let v = chars_of(text);
        let (a, b) = crate::text::trim_bounds(&v);
        a == b
    }

    /// What the keys do in normal mode, apart from the history: the flags of
    /// `actions` that they raise, given whether the text is blank and whether
    /// the cursor is on the first line.
    pub open spec fn normal_actions(
        keys: EditorKeys,
        blank: bool,
        first_line: bool,
        actions: SqlEditorActions,
    ) -> SqlEditorActions {
        if keys.up() && first_line {
            SqlEditorActions { focus_to_grid: true, ..actions }
        } else {
            SqlEditorActions {
                execute: actions.execute || (keys.run() && !blank),
                explain: actions.explain || (keys.f6 && !blank),
                focus_to_grid: actions.focus_to_grid || keys.escape,
                clear: actions.clear || (keys.d && keys.shift),
                ..actions
            }
        }
    }

    /// Where the history stands after the keys of a frame in normal mode:
    /// unchanged if the keys leave the editor upwards, else one step older if
    /// asked and then one step newer if asked.
    pub open spec fn normal_history(
        keys: EditorKeys,
        first_line: bool,
        history: Seq<String>,
        at: HistoryView,
    ) -> HistoryView {
        if keys.up() && first_line {
            at
        } else {
            let mid = if keys.older() {
                Self::older_entry(history, at)
            } else {
                at
            };
            if keys.newer() {
                Self::newer_entry(history, mid)
            } else {
                mid
            }
        }
    }

    /// Handles the keys of one frame in normal mode.
    ///
    /// `K` or `Up` on the first line hands the keyboard to the grid and ends
    /// the frame. Else `Ctrl+Enter` and `F5` run a statement that is not
    /// blank, `F6` explains it, `Escape` hands the keyboard to the grid,
    /// `Shift+Up` / `Shift+K` and `Shift+Down` / `Shift+J` walk the history,
    /// and `Shift+D` empties the editor.
    pub fn handle_normal_mode(
        keys: &EditorKeys,
        sql_input: &mut String,
        command_history: &Vec<String>,
        history_index: &mut Option<usize>,
        actions: &mut SqlEditorActions,
        cursor_pos: usize,
    )
        requires
            cursor_ok(old(sql_input)@, cursor_pos),
            Self::index_ok(command_history@, *old(history_index)),
        ensures
            *final(actions) == Self::normal_actions(
                *keys,
                crate::text::is_blank(old(sql_input)@),
                newline_count(old(sql_input)@.take(cursor_index(old(sql_input)@, cursor_pos)))
                    == 0,
                *old(actions),
            ),
            (HistoryView { index: *final(history_index), text: final(sql_input)@ })
                == Self::normal_history(
                *keys,
                newline_count(old(sql_input)@.take(cursor_index(old(sql_input)@, cursor_pos)))
                    == 0,
                command_history@,
                HistoryView { index: *old(history_index), text: old(sql_input)@ },
            ),
            Self::index_ok(command_history@, *final(history_index)),
    {
        let first_line = Self::is_at_first_line(sql_input.as_str(), cursor_pos);
        if (keys.k || keys.arrow_up) && !keys.shift && first_line {
            actions.focus_to_grid = true;
            return;
        }
        let blank = Self::is_blank(sql_input.as_str());
        if keys.ctrl && keys.enter && !blank {
            actions.execute = true;
        }
        if keys.f5 && !blank {
            actions.execute = true;
        }
        if keys.f6 && !blank {
            actions.explain = true;
        }
        if keys.escape {
            actions.focus_to_grid = true;
        }
        let older = keys.shift && (keys.arrow_up || keys.k);
        let newer = keys.shift && (keys.arrow_down || keys.j);
        if older {
            Self::history_up(command_history, history_index, sql_input);
        }
        if newer {
            Self::history_down(command_history, history_index, sql_input);
        }
        if keys.d && keys.shift {
            actions.clear = true;
        }
    }

    /// The text with a line break put in at the end of the line under the
    /// cursor.
    pub open spec fn line_opened(s: Seq<char>, pos: usize) -> Seq<char> {
        let end = line_stop(s, cursor_index(s, pos));
        s.take(end) + seq!['\n'] + s.skip(end)
    }

    /// Opens a line below the line under the cursor: puts a line break in at
    /// the end of that line.
    pub fn open_line_below(sql_input: &mut String, cursor_pos: usize)
        requires
            cursor_ok(old(sql_input)@, cursor_pos),
        ensures
            final(sql_input)@ == Self::line_opened(old(sql_input)@, cursor_pos),
    {
        let (v, k) = cursor_in(sql_input.as_str(), cursor_pos);
        let end = find_line_stop(&v, k);
        let mut out: Vec<char> = Vec::new();
        push_range(&mut out, &v, 0, end);
        out.push('\n');
        let n: usize = v.len();
        push_range(&mut out, &v, end, n);
        assert(out@ =~= v@.take(end as int) + seq!['\n'] + v@.skip(end as int));
        *sql_input = string_of(&out);
    }

    /// Goes from normal mode into insert mode if the keys ask for it: `i`,
    /// `a` or `o`, of which `o` also opens a line below the cursor. Says
    /// whether the mode has changed.
    pub fn enter_insert_mode(
        i: bool,
        a: bool,
        o: bool,
        sql_input: &mut String,
        cursor_pos: usize,
        editor_mode: &mut EditorMode,
    ) -> (entered: bool)
        requires
            cursor_ok(old(sql_input)@, cursor_pos),
        ensures
            entered == (*old(editor_mode) == EditorMode::Normal && (i || a || o)),
            *final(editor_mode) == if entered {
                EditorMode::Insert
            } else {
                *old(editor_mode)
            },
            final(sql_input)@ == if entered && o {
                Self::line_opened(old(sql_input)@, cursor_pos)
            } else {
                old(sql_input)@
            },
    {
        let normal = match *editor_mode {
            EditorMode::Normal => true,
            EditorMode::Insert => false,
        };
        if normal && (i || a || o) {
            *editor_mode = EditorMode::Insert;
            if o {
                Self::open_line_below(sql_input, cursor_pos);
            }
            true
        } else {
            false
        }
    }

    /// Handles `Escape` in insert mode: it closes the list of completions if
    /// that is open, else it goes back to normal mode. Either way the editor
    /// has used the key.
    pub fn handle_escape(
        show_autocomplete: &mut bool,
        editor_mode: &mut EditorMode,
        actions: &mut SqlEditorActions,
    )
        ensures
            !*final(show_autocomplete),
            *final(editor_mode) == if *old(show_autocomplete) {
                *old(editor_mode)
            } else {
                EditorMode::Normal
            },
            *final(actions) == (SqlEditorActions { escape_consumed: true, ..*old(actions) }),
    {
        if *show_autocomplete {
            *show_autocomplete = false;
        } else {
            *editor_mode = EditorMode::Normal;
        }
        actions.escape_consumed = true;
    }

    /// Whether the list of completions opens after the text has changed: a
    /// word is being typed before the cursor, and there are completions for
    /// it.
    pub fn completion_wanted(text: &str, cursor_pos: usize, completion_count: usize) -> (r: bool)
        requires
            cursor_ok(text@, cursor_pos),
        ensures
            r == (word_start(text@, cursor_index(text@, cursor_pos)) < cursor_index(
                text@,
                cursor_pos,
            ) && completion_count > 0),
    {
        let (v, k) = cursor_in(text, cursor_pos);
        let w = find_word_start(&v, k);
        w < k && completion_count > 0
    }

    /// Whether the list of completions is open and which completion is
    /// selected after the keys of a frame: the keys that ask for the list open
    /// it on its first entry if there is one; in the open list `Down` and then
    /// `Up` move the selection; `Tab` or `Enter` close the list if the
    /// selection points at a completion.
    pub open spec fn selection_after(
        keys: EditorKeys,
        count: nat,
        show: bool,
        selected: usize,
    ) -> (bool, usize) {
        let opened = keys.complete() && count > 0;
        let show1 = show || opened;
        let sel1 = if opened {
            0usize
        } else {
            selected
        };
        if show1 && count > 0 {
            let sel2 = if keys.arrow_down {
                ((sel1 + 1) % (count as int)) as usize
            } else {
                sel1
            };
            let sel3 = if keys.arrow_up {
                if sel2 == 0 {
                    (count - 1) as usize
                } else {
                    (sel2 - 1) as usize
                }
            } else {
                sel2
            };
            (!((keys.tab || keys.enter) && sel3 < count), sel3)
        } else {
            (show1, sel1)
        }
    }

    /// Whether the keys put the completion `chosen` in place of the word at
    /// the cursor: the list of `count` completions is open, `Tab` or `Enter`
    /// is pressed, and `chosen`, the selection after the keys, is one of the
    /// completions.
    pub open spec fn completion_taken(keys: EditorKeys, count: nat, show: bool, chosen: usize) -> bool {
        (show || keys.complete()) && count > 0 && (keys.tab || keys.enter) && chosen < count
    }

    /// Where the history stands after the keys of a frame in insert mode,
    /// given whether the list of completions is open after them: while it is
    /// closed, `Shift+Up` goes one step older and then `Shift+Down` one step
    /// newer.
    pub open spec fn insert_history(
        keys: EditorKeys,
        list_open: bool,
        history: Seq<String>,
        at: HistoryView,
    ) -> HistoryView {
        if keys.shift && !list_open {
            let older = if keys.arrow_up {
                Self::older_entry(history, at)
            } else {
                at
            };
            if keys.arrow_down {
                Self::newer_entry(history, older)
            } else {
                older
            }
        } else {
            at
        }
    }

    /// Handles the keys of one frame in insert mode. `completions` holds the
    /// texts that the completions at the cursor would insert.
    ///
    /// `Ctrl+Enter` and `F5` run a statement that is not blank and go back to
    /// normal mode; `F6` explains it. `Ctrl+Space` and `Alt+L` open the list
    /// of completions if there are any. While the list is open, `Down` and
    /// `Up` move the selection round the list, and `Tab` or `Enter` put the
    /// selected completion in place of the word at the cursor and close the
    /// list. While it is closed, `Shift+Up` and `Shift+Down` walk the
    /// history.
    pub fn handle_insert_mode(
        keys: &EditorKeys,
        sql_input: &mut String,
        command_history: &Vec<String>,
        history_index: &mut Option<usize>,
        actions: &mut SqlEditorActions,
        completions: &Vec<String>,
        show_autocomplete: &mut bool,
        selected_completion: &mut usize,
        cursor_pos: usize,
        editor_mode: &mut EditorMode,
    )
        requires
            cursor_ok(old(sql_input)@, cursor_pos),
            Self::index_ok(command_history@, *old(history_index)),
            keys.arrow_down && *old(show_autocomplete) && !keys.complete() ==> *old(
                selected_completion,
            ) < usize::MAX,
        ensures
            *final(actions) == (SqlEditorActions {
                execute: old(actions).execute || (keys.run() && !crate::text::is_blank(
                    old(sql_input)@,
                )),
                explain: old(actions).explain || (keys.f6 && !crate::text::is_blank(
                    old(sql_input)@,
                )),
                ..*old(actions)
            }),
            *final(editor_mode) == if keys.run() && !crate::text::is_blank(old(sql_input)@) {
                EditorMode::Normal
            } else {
                *old(editor_mode)
            },
            (*final(show_autocomplete), *final(selected_completion)) == Self::selection_after(
                *keys,
                completions@.len(),
                *old(show_autocomplete),
                *old(selected_completion),
            ),
            Self::index_ok(command_history@, *final(history_index)),
            (HistoryView { index: *final(history_index), text: final(sql_input)@ })
                == Self::insert_history(
                *keys,
                *final(show_autocomplete),
                command_history@,
                HistoryView {
                    index: *old(history_index),
                    text: if Self::completion_taken(
                        *keys,
                        completions@.len(),
                        *old(show_autocomplete),
                        *final(selected_completion),
                    ) {
                        completed(
                            old(sql_input)@,
                            cursor_pos,
                            completions@[*final(selected_completion) as int]@,
                        )
                    } else {
                        old(sql_input)@
                    },
                },
            ),
    {
        let count: usize = completions.len();
        let blank = Self::is_blank(sql_input.as_str());
        if keys.ctrl && keys.enter && !blank {
            actions.execute = true;
            *editor_mode = EditorMode::Normal;
        }
        if keys.f5 && !blank {
            actions.execute = true;
            *editor_mode = EditorMode::Normal;
        }
        if keys.f6 && !blank {
            actions.explain = true;
        }
        if (keys.ctrl && keys.space) || (keys.alt && keys.l) {
            if count > 0 {
                *show_autocomplete = true;
                *selected_completion = 0;
            }
        }
        if *show_autocomplete && count > 0 {
            if keys.arrow_down {
                *selected_completion = Self::completion_down(*selected_completion, count);
            }
            if keys.arrow_up {
                *selected_completion = Self::completion_up(*selected_completion, count);
            }
            if keys.tab || keys.enter {
                if *selected_completion < count {
                    apply_completion_at_cursor(
                        sql_input,
                        cursor_pos,
                        completions[*selected_completion].as_str(),
                    );
                    *show_autocomplete = false;
                }
            }
        }
        if keys.shift && !*show_autocomplete {
            if keys.arrow_up {
                Self::history_up(command_history, history_index, sql_input);
            }
            if keys.arrow_down {
                Self::history_down(command_history, history_index, sql_input);
            }
        }
    }
}

/// Which buttons above the editor can be pressed.
#[derive(Debug, Clone, Copy, PartialEq, Eq, Structural)]
pub struct EditorButtons {
    /// Whether the button that runs the statement is there at all: while a
    /// statement runs, a spinner stands in its place.
    pub run_shown: bool,
    /// Whether the statement can be run.
    pub run: bool,
    /// Whether the statement can be explained.
    pub explain: bool,
    /// Whether the editor can be emptied.
    pub clear: bool,
}

impl SqlEditor {
    /// Which buttons above the editor can be pressed: a statement that is
    /// not blank can be run and, while nothing runs, explained; a text that
    /// is not empty can be dropped.
    pub fn buttons(text: &str, executing: bool) -> (r: EditorButtons)
        ensures
            r == (EditorButtons {
                run_shown: !executing,
                run: !crate::text::is_blank(text@),
                explain: !executing && !crate::text::is_blank(text@),
                clear: text@.len() > 0,
            }),
    {
        let blank = Self::is_blank(text);
        let v = chars_of(text);
        EditorButtons {
            run_shown: !executing,
            run: !blank,
            explain: !executing && !blank,
            clear: v.len() > 0,
        }
    }

    /// The hint that the empty editor shows.
    pub fn hint(mode: EditorMode) -> (r: &'static str)
        ensures
            r@ == match mode {
                EditorMode::Insert => "输入 SQL... (Esc 退出编辑, Ctrl+Enter 执行)"@,
                EditorMode::Normal => "双击进入编辑模式, Ctrl+Enter 执行"@,
            },
    {
        match mode {
            EditorMode::Insert => "输入 SQL... (Esc 退出编辑, Ctrl+Enter 执行)",
            EditorMode::Normal => "双击进入编辑模式, Ctrl+Enter 执行",
        }
    }

    /// The size of the text as the status bar shows it: its lines and its
    /// characters.
    pub fn size_text(text: &str) -> (r: String)
        requires
            newline_count(text@) < usize::MAX,
        ensures
            r@ == decimal(newline_count(text@) + 1) + "行 "@ + decimal(text@.len()) + "字符"@,
    {
        let v = chars_of(text);
        let mut out: Vec<char> = Vec::new();
        push_decimal(&mut out, count_lines(text));
        push_str(&mut out, "行 ");
        push_decimal(&mut out, v.len());
        push_str(&mut out, "字符");
        assert(out@ =~= decimal(newline_count(text@) + 1) + "行 "@ + decimal(text@.len())
            + "字符"@);
        string_of(&out)
    }

    /// A line and a column as the status bar shows them.
    pub fn place_text(line: usize, column: usize) -> (r: String)
        ensures
            r@ == "Ln "@ + decimal(line as nat) + " Col "@ + decimal(column as nat),
    {
        let mut out = chars_of("Ln ");
        push_decimal(&mut out, line);
        push_str(&mut out, " Col ");
        push_decimal(&mut out, column);
        string_of(&out)
    }

    /// The length of the command history as the status bar shows it.
    pub fn history_text(count: usize) -> (r: String)
        ensures
            r@ == "历史 "@ + decimal(count as nat),
    {
        let mut out = chars_of("历史 ");
        push_decimal(&mut out, count);
        string_of(&out)
    }
}

} // verus!

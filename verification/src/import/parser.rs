//! Splitting an SQL file into statements.
//!
//! The reader walks the file line by line and character by character. It
//! remembers, from one line to the next, whether it is inside a `/* */`
//! comment or inside a quoted string. Outside both, a `;` ends a statement;
//! with `strip_comments`, `/*` opens a comment and `--` or `#` ends the line.
//! A quote character doubled inside a string stands for itself.

use crate::import::types::{texts, ImportPreview, PreviewView, SqlImportConfig};
use crate::text::{
    chars_of, lemma_skip_whitespace, lemma_skip_whitespace_back, lines, push_range, rows,
    skip_whitespace, skip_whitespace_back, split_lines, string_of, string_of_range, trim,
    trim_bounds,
};
use vstd::prelude::*;

verus! {

/// What the reader knows between two characters.
pub struct Scan {
    /// The statements that are complete.
    pub statements: Seq<Seq<char>>,
    /// The text of the statement under way, up to the end of the last line.
    pub current: Seq<char>,
    /// Whether a `/*` is open.
    pub in_block_comment: bool,
    /// Whether a quoted string is open.
    pub in_string: bool,
    /// The character that opened the string last opened.
    pub quote: char,
}

impl Scan {
    /// The state at the start of a file.
    pub open spec fn start() -> Scan {
        Scan {
            statements: Seq::empty(),
            current: Seq::empty(),
            in_block_comment: false,
            in_string: false,
            quote: '"',
        }
    }
}

/// `statements` with the statement that `text` holds: `text` trimmed, unless
/// that is empty or a lone `;`.
pub open spec fn with_statement(statements: Seq<Seq<char>>, text: Seq<char>) -> Seq<Seq<char>> {
    let stmt = trim(text);
    if stmt.len() > 0 && stmt != seq![';'] {
        statements.push(stmt)
    } else {
        statements
    }
}

/// Reads `line[i..]`. `kept` is what the line has contributed to the statement
/// under way since its start or its last `;`. The result is the state at the
/// end of the line and what the line leaves for `end_line`.
pub open spec fn scan_line(strip: bool, line: Seq<char>, i: int, st: Scan, kept: Seq<char>) -> (
    Scan,
    Seq<char>,
)
    decreases line.len() - i,
{
    if 0 <= i < line.len() {
        let c = line[i];
        let two = i + 1 < line.len();
        if st.in_block_comment {
            if two && c == '*' && line[i + 1] == '/' {
                scan_line(strip, line, i + 2, Scan { in_block_comment: false, ..st }, kept)
            } else {
                scan_line(strip, line, i + 1, st, kept)
            }
        } else if st.in_string {
            if c == st.quote && two && line[i + 1] == st.quote {
                scan_line(strip, line, i + 2, st, kept.push(c).push(c))
            } else if c == st.quote {
                scan_line(strip, line, i + 1, Scan { in_string: false, ..st }, kept.push(c))
            } else {
                scan_line(strip, line, i + 1, st, kept.push(c))
            }
        } else if strip && two && c == '/' && line[i + 1] == '*' {
            scan_line(strip, line, i + 2, Scan { in_block_comment: true, ..st }, kept)
        } else if strip && two && c == '-' && line[i + 1] == '-' {
            (st, kept)
        } else if strip && c == '#' {
            (st, kept)
        } else if c == '\'' || c == '"' {
            scan_line(strip, line, i + 1, Scan { in_string: true, quote: c, ..st }, kept.push(c))
        } else if c == ';' {
            scan_line(
                strip,
                line,
                i + 1,
                Scan {
                    statements: with_statement(st.statements, st.current + kept.push(';')),
                    current: Seq::empty(),
                    ..st
                },
                Seq::empty(),
            )
        } else {
            scan_line(strip, line, i + 1, st, kept.push(c))
        }
    } else {
        (st, kept)
    }
}

/// The state after a line that left `kept`: the trimmed rest joins the
/// statement under way on a line of its own. With `strip_empty`, a rest that
/// is blank adds nothing.
pub open spec fn end_line(strip_empty: bool, st: Scan, kept: Seq<char>) -> Scan {
    let rest = trim(kept);
    if !strip_empty || rest.len() > 0 {
        let current = if st.current.len() > 0 && st.current.last() != '\n' {
            st.current.push('\n')
        } else {
            st.current
        };
        Scan { current: current + rest, ..st }
    } else {
        st
    }
}

/// The state after the lines `all[k..]`, read from state `st`.
pub open spec fn scan_lines(config: SqlImportConfig, all: Seq<Seq<char>>, k: int, st: Scan) -> Scan
    decreases all.len() - k,
{
    if 0 <= k < all.len() {
        let (after, kept) = scan_line(config.strip_comments, all[k], 0, st, Seq::empty());
        scan_lines(config, all, k + 1, end_line(config.strip_empty_lines, after, kept))
    } else {
        st
    }
}

/// The statements of the file `content`, and whether the last of them lacks
/// its `;`.
pub open spec fn split_statements(content: Seq<char>, config: SqlImportConfig) -> (
    Seq<Seq<char>>,
    bool,
) {
    let end = scan_lines(config, lines(content), 0, Scan::start());
    let last = trim(end.current);
    if last.len() > 0 {
        (end.statements.push(last), true)
    } else {
        (end.statements, false)
    }
}

/// How many statements the preview shows.
pub const PREVIEW_LIMIT: usize = 10;

/// The preview of an SQL file: one column, one row for each of the first ten
/// statements, the number of statements as both counts, and one warning if
/// the last statement lacks its `;`.
pub open spec fn sql_preview(content: Seq<char>, config: SqlImportConfig) -> PreviewView {
    let (statements, open_end) = split_statements(content, config);
    let shown = if statements.len() < PREVIEW_LIMIT {
        statements.len()
    } else {
        PREVIEW_LIMIT as nat
    };
    PreviewView {
        columns: seq!["SQL 语句"@],
        preview_rows: Seq::new(shown, |i: int| seq![statements[i]]),
        total_rows: statements.len(),
        statement_count: statements.len(),
        warnings: if open_end {
            seq!["最后一条语句没有分号"@]
        } else {
            Seq::empty()
        },
        sql_statements: statements,
    }
}

/// Whether `s` neither starts nor ends with whitespace and is not empty.
pub open spec fn is_tight(s: Seq<char>) -> bool {
    s.len() > 0 && trim(s) == s
}

/// Whether every text in `all` is tight.
pub open spec fn all_tight(all: Seq<Seq<char>>) -> bool {
    forall|k: int| 0 <= k < all.len() ==> is_tight(#[trigger] all[k])
}

/// A trimmed text is empty or tight.
pub proof fn lemma_trim_tight(s: Seq<char>)
    ensures
        trim(s).len() > 0 ==> is_tight(trim(s)),
        trim(trim(s)) == trim(s),
{
    let a = skip_whitespace(s, 0);
    lemma_skip_whitespace(s, 0);
    let b = skip_whitespace_back(s, a, s.len() as int);
    lemma_skip_whitespace_back(s, a, s.len() as int);
    let t = s.subrange(a, b);
    assert(t == trim(s));
    if t.len() > 0 {
        assert(a < s.len());
        assert(!crate::text::is_space(t[0]));
        assert(skip_whitespace(t, 0) == 0);
        assert(!crate::text::is_space(t[t.len() - 1]));
        assert(skip_whitespace_back(t, 0, t.len() as int) == t.len());
        assert(t.subrange(0, t.len() as int) =~= t);
    } else {
        assert(skip_whitespace(t, 0) == 0);
        assert(skip_whitespace_back(t, 0, 0) == 0);
        assert(t.subrange(0, 0) =~= t);
    }
}

/// Every statement that `scan_line` adds is tight.
pub proof fn lemma_scan_line_tight(strip: bool, line: Seq<char>, i: int, st: Scan, kept: Seq<char>)
    requires
        all_tight(st.statements),
    ensures
        all_tight(scan_line(strip, line, i, st, kept).0.statements),
    decreases line.len() - i,
{
    if 0 <= i < line.len() {
        let c = line[i];
        let two = i + 1 < line.len();
        if st.in_block_comment {
            if two && c == '*' && line[i + 1] == '/' {
                lemma_scan_line_tight(
                    strip,
                    line,
                    i + 2,
                    Scan { in_block_comment: false, ..st },
                    kept,
                );
            } else {
                lemma_scan_line_tight(strip, line, i + 1, st, kept);
            }
        } else if st.in_string {
            if c == st.quote && two && line[i + 1] == st.quote {
                lemma_scan_line_tight(strip, line, i + 2, st, kept.push(c).push(c));
            } else if c == st.quote {
                lemma_scan_line_tight(
                    strip,
                    line,
                    i + 1,
                    Scan { in_string: false, ..st },
                    kept.push(c),
                );
            } else {
                lemma_scan_line_tight(strip, line, i + 1, st, kept.push(c));
            }
        } else if strip && two && c == '/' && line[i + 1] == '*' {
            lemma_scan_line_tight(strip, line, i + 2, Scan { in_block_comment: true, ..st }, kept);
        } else if strip && two && c == '-' && line[i + 1] == '-' {
        } else if strip && c == '#' {
        } else if c == '\'' || c == '"' {
            lemma_scan_line_tight(
                strip,
                line,
                i + 1,
                Scan { in_string: true, quote: c, ..st },
                kept.push(c),
            );
        } else if c == ';' {
            lemma_trim_tight(st.current + kept.push(';'));
            lemma_scan_line_tight(
                strip,
                line,
                i + 1,
                Scan {
                    statements: with_statement(st.statements, st.current + kept.push(';')),
                    current: Seq::empty(),
                    ..st
                },
                Seq::empty(),
            );
        } else {
            lemma_scan_line_tight(strip, line, i + 1, st, kept.push(c));
        }
    }
}

/// Every statement that `scan_lines` adds is tight.
pub proof fn lemma_scan_lines_tight(config: SqlImportConfig, all: Seq<Seq<char>>, k: int, st: Scan)
    requires
        all_tight(st.statements),
    ensures
        all_tight(scan_lines(config, all, k, st).statements),
    decreases all.len() - k,
{
    if 0 <= k < all.len() {
        let (after, kept) = scan_line(config.strip_comments, all[k], 0, st, Seq::empty());
        lemma_scan_line_tight(config.strip_comments, all[k], 0, st, Seq::empty());
        lemma_scan_lines_tight(
            config,
            all,
            k + 1,
            end_line(config.strip_empty_lines, after, kept),
        );
    }
}

/// No statement of a file is empty, and none starts or ends with whitespace.
pub proof fn lemma_statements_tight(content: Seq<char>, config: SqlImportConfig)
    ensures
        all_tight(split_statements(content, config).0),
{
    let end = scan_lines(config, lines(content), 0, Scan::start());
    lemma_scan_lines_tight(config, lines(content), 0, Scan::start());
    lemma_trim_tight(end.current);
}

/// The reader's state while it runs.
struct Reader {
    statements: Vec<String>,
    current: Vec<char>,
    in_block_comment: bool,
    in_string: bool,
    quote: char,
}

impl View for Reader {
    type V = Scan;

    closed spec fn view(&self) -> Scan {
        Scan {
            statements: texts(self.statements@),
            current: self.current@,
            in_block_comment: self.in_block_comment,
            in_string: self.in_string,
            quote: self.quote,
        }
    }
}

impl Reader {
    /// Ends the statement under way with `kept` and a `;`.
    fn close_statement(&mut self, kept: &mut Vec<char>)
        ensures
            final(self)@ == (Scan {
                statements: with_statement(
                    old(self)@.statements,
                    old(self)@.current + old(kept)@.push(';'),
                ),
                current: Seq::empty(),
                ..old(self)@
            }),
            final(kept)@ == Seq::<char>::empty(),
    {
        kept.push(';');
        let n: usize = kept.len();
        push_range(&mut self.current, kept, 0, n);
        assert(self.current@ =~= old(self)@.current + old(kept)@.push(';'));
        let (a, b) = trim_bounds(&self.current);
        let is_lone_semicolon = b - a == 1 && self.current[a] == ';';
        proof {
            let stmt = trim(self.current@);
            if is_lone_semicolon {
                assert(stmt =~= seq![';']);
            } else if stmt.len() == 1 {
                assert(stmt[0] != ';');
            }
        }
        if b > a && !is_lone_semicolon {
            let stmt = string_of_range(&self.current, a, b);
            let ghost before = self.statements@;
            self.statements.push(stmt);
            assert(texts(self.statements@) =~= texts(before).push(stmt@));
        }
        self.current.clear();
        kept.clear();
    }

    /// Reads one line and returns what it leaves for `finish_line`.
    fn read_line(&mut self, strip: bool, line: &Vec<char>) -> (kept: Vec<char>)
        ensures
            (final(self)@, kept@) == scan_line(strip, line@, 0, old(self)@, Seq::empty()),
    {
        let n: usize = line.len();
        let mut kept: Vec<char> = Vec::new();
        let mut i: usize = 0;
        while i < n
            invariant
                n == line.len(),
                i <= n,
                scan_line(strip, line@, i as int, self@, kept@) == scan_line(
                    strip,
                    line@,
                    0,
                    old(self)@,
                    Seq::empty(),
                ),
            decreases n - i,
        {
            let c = line[i];
            let two = i + 1 < n;
            if self.in_block_comment {
                if two && c == '*' && line[i + 1] == '/' {
                    self.in_block_comment = false;
                    i += 2;
                } else {
                    i += 1;
                }
            } else if self.in_string {
                kept.push(c);
                if c == self.quote && two && line[i + 1] == self.quote {
                    kept.push(line[i + 1]);
                    i += 2;
                } else if c == self.quote {
                    self.in_string = false;
                    i += 1;
                } else {
                    i += 1;
                }
            } else if strip && two && c == '/' && line[i + 1] == '*' {
                self.in_block_comment = true;
                i += 2;
            } else if strip && two && c == '-' && line[i + 1] == '-' {
                return kept;
            } else if strip && c == '#' {
                return kept;
            } else if c == '\'' || c == '"' {
                self.in_string = true;
                self.quote = c;
                kept.push(c);
                i += 1;
            } else if c == ';' {
                self.close_statement(&mut kept);
                i += 1;
            } else {
                kept.push(c);
                i += 1;
            }
        }
        kept
    }

    /// Adds what a line left to the statement under way.
    fn finish_line(&mut self, strip_empty: bool, kept: &Vec<char>)
        ensures
            final(self)@ == end_line(strip_empty, old(self)@, kept@),
    {
        let (a, b) = trim_bounds(kept);
        if !strip_empty || b > a {
            let n: usize = self.current.len();
            if n > 0 && self.current[n - 1] != '\n' {
                self.current.push('\n');
            }
            push_range(&mut self.current, kept, a, b);
        }
    }
}

/// Reads an SQL file: leaves out comments and empty lines as `config` asks,
/// and splits the rest into statements.
pub fn parse_sql_file(content: &str, config: &SqlImportConfig) -> (preview: ImportPreview)
    ensures
        preview@ == sql_preview(content@, *config),
        all_tight(preview@.sql_statements),
{
    let text = chars_of(content);
    let all = split_lines(&text);
    let mut reader = Reader {
        statements: Vec::new(),
        current: Vec::new(),
        in_block_comment: false,
        in_string: false,
        quote: '"',
    };
    assert(reader@.statements =~= Seq::empty());
    assert(reader@ == Scan::start());
    let mut k: usize = 0;
    while k < all.len()
        invariant
            k <= all.len(),
            rows(all@) == lines(content@),
            scan_lines(*config, rows(all@), k as int, reader@) == scan_lines(
                *config,
                lines(content@),
                0,
                Scan::start(),
            ),
        decreases all.len() - k,
    {
        assert(rows(all@)[k as int] == all@[k as int]@);
        let kept = reader.read_line(config.strip_comments, &all[k]);
        reader.finish_line(config.strip_empty_lines, &kept);
        k += 1;
    }
    let mut warnings: Vec<String> = Vec::new();
    let (a, b) = trim_bounds(&reader.current);
    if b > a {
        let last = string_of_range(&reader.current, a, b);
        let ghost before = reader.statements@;
        reader.statements.push(last);
        assert(texts(reader.statements@) =~= texts(before).push(last@));
        warnings.push(string_of(&chars_of("最后一条语句没有分号")));
        assert(texts(warnings@) =~= seq!["最后一条语句没有分号"@]);
    } else {
        assert(texts(warnings@) =~= Seq::<Seq<char>>::empty());
    }
    let statements = reader.statements;
    assert(texts(statements@) == split_statements(content@, *config).0);
    let total: usize = statements.len();
    let shown: usize = if total < PREVIEW_LIMIT {
        total
    } else {
        PREVIEW_LIMIT
    };
    let mut preview_rows: Vec<Vec<String>> = Vec::new();
    let mut j: usize = 0;
    while j < shown
        invariant
            j <= shown <= statements.len(),
            preview_rows@.len() == j,
            forall|r: int|
                0 <= r < j ==> texts((#[trigger] preview_rows@[r])@) == seq![statements@[r]@],
        decreases shown - j,
    {
        let mut row: Vec<String> = Vec::new();
        row.push(statements[j].clone());
        assert(texts(row@) =~= seq![statements@[j as int]@]);
        preview_rows.push(row);
        j += 1;
    }
    let mut columns: Vec<String> = Vec::new();
    columns.push(string_of(&chars_of("SQL 语句")));
    assert(texts(columns@) =~= seq!["SQL 语句"@]);
    let preview = ImportPreview {
        columns,
        preview_rows,
        total_rows: total,
        statement_count: total,
        warnings,
        sql_statements: statements,
    };
    proof {
        let want = sql_preview(content@, *config);
        assert(preview@.preview_rows =~= want.preview_rows);
        lemma_statements_tight(content@, *config);
    }
    preview
}

} // verus!

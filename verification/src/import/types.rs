//! The state of an import: the file, its format, the options of each format
//! and the preview that the dialog shows.

use crate::text::{chars_of, lowercase, push_str, same_text, string_of};
use std::path::PathBuf;
use vstd::prelude::*;

verus! {

/// `std::path::PathBuf`, carried through the state as an opaque value.
#[verifier::external_type_specification]
#[verifier::external_body]
pub struct ExPathBuf(PathBuf);

/// The views of the strings in `v`, in order.
pub open spec fn texts(v: Seq<String>) -> Seq<Seq<char>> {
    v.map_values(|s: String| s@)
}

/// The views of the rows in `v`, in order.
pub open spec fn tables(v: Seq<Vec<String>>) -> Seq<Seq<Seq<char>>> {
    v.map_values(|r: Vec<String>| texts(r@))
}

/// The format of the file to import.
#[derive(Debug, Clone, Copy, PartialEq, Eq, Structural)]
pub enum ImportFormat {
    Sql,
    Csv,
    Json,
}

impl ImportFormat {
    /// The format that a lower-case extension stands for: `csv` and `tsv` are
    /// CSV, `json` is JSON, everything else is SQL.
    pub open spec fn of_lowercase(lower: Seq<char>) -> ImportFormat {
        if lower == "csv"@ || lower == "tsv"@ {
            ImportFormat::Csv
        } else if lower == "json"@ {
            ImportFormat::Json
        } else {
            ImportFormat::Sql
        }
    }

    /// The format for an extension that is already in lower case.
    pub fn from_lowercase_extension(lower: &str) -> (r: ImportFormat)
        ensures
            r == Self::of_lowercase(lower@),
    {
        if same_text(lower, "csv") || same_text(lower, "tsv") {
            ImportFormat::Csv
        } else if same_text(lower, "json") {
            ImportFormat::Json
        } else {
            ImportFormat::Sql
        }
    }

    /// The format for a file extension, whatever its case.
    pub fn from_extension(ext: &str) -> (r: ImportFormat)
        ensures
            r == Self::of_lowercase(lowercase(ext@)),
    {
        let lower = ext.to_lowercase();
        Self::from_lowercase_extension(lower.as_str())
    }

    /// The pictogram shown beside the format.
    pub open spec fn icon_text(self) -> Seq<char> {
        match self {
            ImportFormat::Sql => "📝"@,
            ImportFormat::Csv => "📊"@,
            ImportFormat::Json => "🔧"@,
        }
    }

    /// The pictogram shown beside the format.
    pub fn icon(&self) -> (r: &'static str)
        ensures
            r@ == self.icon_text(),
    {
        match self {
            ImportFormat::Sql => "📝",
            ImportFormat::Csv => "📊",
            ImportFormat::Json => "🔧",
        }
    }

    /// The format's name.
    pub open spec fn name_text(self) -> Seq<char> {
        match self {
            ImportFormat::Sql => "SQL"@,
            ImportFormat::Csv => "CSV"@,
            ImportFormat::Json => "JSON"@,
        }
    }

    /// The format's name.
    pub fn name(&self) -> (r: &'static str)
        ensures
            r@ == self.name_text(),
    {
        match self {
            ImportFormat::Sql => "SQL",
            ImportFormat::Csv => "CSV",
            ImportFormat::Json => "JSON",
        }
    }

    /// The format after this one in the cycle SQL, CSV, JSON.
    pub open spec fn following(self) -> ImportFormat {
        match self {
            ImportFormat::Sql => ImportFormat::Csv,
            ImportFormat::Csv => ImportFormat::Json,
            ImportFormat::Json => ImportFormat::Sql,
        }
    }

    /// The format before this one in the cycle SQL, CSV, JSON.
    pub open spec fn preceding(self) -> ImportFormat {
        match self {
            ImportFormat::Sql => ImportFormat::Json,
            ImportFormat::Csv => ImportFormat::Sql,
            ImportFormat::Json => ImportFormat::Csv,
        }
    }

    /// The format after this one in the cycle SQL, CSV, JSON.
    pub fn next(self) -> (r: ImportFormat)
        ensures
            r == self.following(),
    {
        match self {
            ImportFormat::Sql => ImportFormat::Csv,
            ImportFormat::Csv => ImportFormat::Json,
            ImportFormat::Json => ImportFormat::Sql,
        }
    }

    /// The format before this one in the cycle SQL, CSV, JSON.
    pub fn prev(self) -> (r: ImportFormat)
        ensures
            r == self.preceding(),
    {
        match self {
            ImportFormat::Sql => ImportFormat::Json,
            ImportFormat::Csv => ImportFormat::Sql,
            ImportFormat::Json => ImportFormat::Csv,
        }
    }

    /// Stepping forward and then back, or back and then forward, changes
    /// nothing, and three steps forward close the cycle.
    pub proof fn lemma_cycle(self)
        ensures
            self.following().preceding() == self,
            self.preceding().following() == self,
            self.following().following().following() == self,
    {
    }
}

impl Default for ImportFormat {
    fn default() -> (r: Self)
        ensures
            r == ImportFormat::Sql,
    {
        ImportFormat::Sql
    }
}

/// What to do with the statements of an SQL file.
#[derive(Debug, Clone, Copy, PartialEq, Eq, Structural)]
pub enum ImportMode {
    /// Run the statements one by one.
    Execute,
    /// Put the statements into the editor.
    CopyToEditor,
}

impl Default for ImportMode {
    fn default() -> (r: Self)
        ensures
            r == ImportMode::Execute,
    {
        ImportMode::Execute
    }
}

/// Options for an SQL file.
#[derive(Debug, Clone, Copy, PartialEq, Eq, Structural)]
pub struct SqlImportConfig {
    /// Leave out `--`, `#` and `/* */` comments.
    pub strip_comments: bool,
    /// Leave out lines that hold nothing.
    pub strip_empty_lines: bool,
    /// Stop at the first statement that fails.
    pub stop_on_error: bool,
    /// Run all statements in one transaction.
    pub use_transaction: bool,
}

impl Default for SqlImportConfig {
    fn default() -> (r: Self)
        ensures
            r == (SqlImportConfig {
                strip_comments: true,
                strip_empty_lines: true,
                stop_on_error: false,
                use_transaction: false,
            }),
    {
        SqlImportConfig {
            strip_comments: true,
            strip_empty_lines: true,
            stop_on_error: false,
            use_transaction: false,
        }
    }
}

/// Options for a CSV file.
#[derive(Debug, Clone)]
pub struct CsvImportConfig {
    /// The character between two fields.
    pub delimiter: char,
    /// How many rows to pass over before the header.
    pub skip_rows: usize,
    /// Whether the first row names the columns.
    pub has_header: bool,
    /// The table to fill.
    pub table_name: String,
    /// The character around a quoted field.
    pub quote_char: char,
    /// The file's character encoding.
    pub encoding: String,
}

impl CsvImportConfig {
    /// Whether this is the configuration a new import starts from.
    pub open spec fn is_default(&self) -> bool {
        &&& self.delimiter == ','
        &&& self.skip_rows == 0
        &&& self.has_header
        &&& self.table_name@ == Seq::<char>::empty()
        &&& self.quote_char == '"'
        &&& self.encoding@ == "UTF-8"@
    }
}

impl Default for CsvImportConfig {
    fn default() -> (r: Self)
        ensures
            r.is_default(),
    {
        CsvImportConfig {
            delimiter: ',',
            skip_rows: 0,
            has_header: true,
            table_name: String::new(),
            quote_char: '"',
            encoding: string_of(&chars_of("UTF-8")),
        }
    }
}

/// Options for a JSON file.
#[derive(Debug, Clone)]
pub struct JsonImportConfig {
    /// Where the rows are inside the document, such as `data.items`.
    pub json_path: String,
    /// The table to fill.
    pub table_name: String,
    /// Whether nested objects are flattened into columns.
    pub flatten_nested: bool,
}

impl JsonImportConfig {
    /// Whether this is the configuration a new import starts from.
    pub open spec fn is_default(&self) -> bool {
        &&& self.json_path@ == Seq::<char>::empty()
        &&& self.table_name@ == Seq::<char>::empty()
        &&& !self.flatten_nested
    }
}

impl Default for JsonImportConfig {
    fn default() -> (r: Self)
        ensures
            r.is_default(),
    {
        JsonImportConfig { json_path: String::new(), table_name: String::new(), flatten_nested: false }
    }
}

/// What a file holds, as far as the dialog shows it before the import.
#[derive(Debug, Clone)]
pub struct ImportPreview {
    /// The column names.
    pub columns: Vec<String>,
    /// The first rows, ten at most.
    pub preview_rows: Vec<Vec<String>>,
    /// How many rows the file holds.
    pub total_rows: usize,
    /// How many statements an SQL file holds.
    pub statement_count: usize,
    /// What the reader found questionable.
    pub warnings: Vec<String>,
    /// The statements of an SQL file.
    pub sql_statements: Vec<String>,
}

/// The mathematical content of an `ImportPreview`.
pub struct PreviewView {
    pub columns: Seq<Seq<char>>,
    pub preview_rows: Seq<Seq<Seq<char>>>,
    pub total_rows: nat,
    pub statement_count: nat,
    pub warnings: Seq<Seq<char>>,
    pub sql_statements: Seq<Seq<char>>,
}

impl View for ImportPreview {
    type V = PreviewView;

    open spec fn view(&self) -> PreviewView {
        PreviewView {
            columns: texts(self.columns@),
            preview_rows: tables(self.preview_rows@),
            total_rows: self.total_rows as nat,
            statement_count: self.statement_count as nat,
            warnings: texts(self.warnings@),
            sql_statements: texts(self.sql_statements@),
        }
    }
}

impl PreviewView {
    /// The preview of nothing.
    pub open spec fn empty() -> PreviewView {
        PreviewView {
            columns: Seq::empty(),
            preview_rows: Seq::empty(),
            total_rows: 0,
            statement_count: 0,
            warnings: Seq::empty(),
            sql_statements: Seq::empty(),
        }
    }
}

impl Default for ImportPreview {
    fn default() -> (r: Self)
        ensures
            r@ == PreviewView::empty(),
    {
        let r = ImportPreview {
            columns: Vec::new(),
            preview_rows: Vec::new(),
            total_rows: 0,
            statement_count: 0,
            warnings: Vec::new(),
            sql_statements: Vec::new(),
        };
        assert(r@.columns =~= Seq::empty());
        assert(r@.preview_rows =~= Seq::empty());
        assert(r@.warnings =~= Seq::empty());
        assert(r@.sql_statements =~= Seq::empty());
        r
    }
}

/// `parts` joined with `sep` between each two neighbours.
pub open spec fn joined(parts: Seq<Seq<char>>, sep: Seq<char>) -> Seq<char>
    decreases parts.len(),
{
    if parts.len() == 0 {
        Seq::empty()
    } else if parts.len() == 1 {
        parts[0]
    } else {
        joined(parts.drop_last(), sep) + sep + parts.last()
    }
}

/// Joins `parts` with `sep` between each two neighbours.
pub fn join(parts: &Vec<String>, sep: &str) -> (r: String)
    ensures
        r@ == joined(texts(parts@), sep@),
{
    let mut out: Vec<char> = Vec::new();
    let mut i: usize = 0;
    while i < parts.len()
        invariant
            i <= parts.len(),
            out@ == joined(texts(parts@).take(i as int), sep@),
        decreases parts.len() - i,
    {
        let ghost before = texts(parts@).take(i as int);
        let ghost after = texts(parts@).take(i as int + 1);
        proof {
            assert(after.drop_last() =~= before);
            assert(after.last() == parts@[i as int]@);
        }
        if i > 0 {
            push_str(&mut out, sep);
        }
        push_str(&mut out, parts[i].as_str());
        proof {
            if i == 0 {
                assert(out@ =~= after[0]);
            } else {
                assert(out@ =~= joined(before, sep@) + sep@ + after.last());
            }
        }
        i += 1;
    }
    assert(texts(parts@).take(parts@.len() as int) =~= texts(parts@));
    string_of(&out)
}

} // verus!

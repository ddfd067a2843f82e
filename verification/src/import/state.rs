//! The import dialog's state, and what the dialog decides from it.

use crate::import::types::{
    join, joined, texts, CsvImportConfig, ImportFormat, ImportMode, ImportPreview,
    JsonImportConfig, SqlImportConfig,
};
use crate::text::{
    chars_of, clip_ok, clip_start_ok, clipped, clipped_start, decimal, lowercase, push_decimal,
    push_str, string_of, try_clip, try_clip_start,
};
use std::path::PathBuf;
use vstd::prelude::*;

verus! {

/// The state of the import dialog.
#[derive(Debug, Clone)]
pub struct ImportState {
    /// The file to import.
    pub file_path: Option<PathBuf>,
    /// The file's format.
    pub format: ImportFormat,
    /// What to do with SQL statements.
    pub mode: ImportMode,
    /// Options for an SQL file.
    pub sql_config: SqlImportConfig,
    /// Options for a CSV file.
    pub csv_config: CsvImportConfig,
    /// Options for a JSON file.
    pub json_config: JsonImportConfig,
    /// What the file holds, once it has been read.
    pub preview: Option<ImportPreview>,
    /// Whether the file is being read.
    pub loading: bool,
    /// Why the file could not be read.
    pub error: Option<String>,
}

/// What the dialog asks its owner to do.
#[derive(Debug, Clone)]
pub enum ImportAction {
    /// Nothing.
    NoAction,
    /// Let the user pick a file.
    SelectFile,
    /// Read the file again.
    RefreshPreview,
    /// Run the import.
    Execute,
    /// Put this text into the editor.
    CopyToEditor(String),
    /// Close the dialog.
    Close,
}

impl Default for ImportAction {
    fn default() -> (r: Self)
        ensures
            r is NoAction,
    {
        ImportAction::NoAction
    }
}

/// The keys that the dialog reacts to, as pressed in one frame.
#[derive(Debug, Clone, Copy, PartialEq, Eq, Structural)]
pub struct ImportKeys {
    /// A text field has the keyboard: the dialog leaves all keys to it.
    pub text_focus: bool,
    /// The key that closes a dialog.
    pub close: bool,
    /// The key that confirms a dialog.
    pub confirm: bool,
    /// `1`: SQL.
    pub sql: bool,
    /// `2`: CSV.
    pub csv: bool,
    /// `3`: JSON.
    pub json: bool,
    /// `h` or the left arrow: the format before.
    pub left: bool,
    /// `l` or the right arrow: the format after.
    pub right: bool,
}

/// What the keys of one frame lead to.
#[derive(Debug, Clone)]
pub enum KeyOutcome {
    /// The dialog is done for this frame and asks for this.
    Done(ImportAction),
    /// The dialog goes on to draw itself.
    Draw,
}

/// The file name's extension, if the path has one that is valid Unicode.
/// Wraps `Path::extension` of the standard library, whose answer depends on
/// the platform's path syntax: nothing is assumed of it.
#[verifier::external_body]
fn extension_text(path: &PathBuf) -> (ext: Option<String>) {
    path.extension().and_then(|s| s.to_str()).map(|s| s.to_string())
}

/// The file name without its extension, if the path has a file name that is
/// valid Unicode. Wraps `Path::file_stem` of the standard library, whose
/// answer depends on the platform's path syntax: nothing is assumed of it.
#[verifier::external_body]
fn stem_text(path: &PathBuf) -> (stem: Option<String>) {
    path.file_stem().and_then(|s| s.to_str()).map(|s| s.to_string())
}

impl ImportState {
    /// Whether this is the state of a dialog that has just been opened.
    pub open spec fn is_initial(&self) -> bool {
        &&& self.file_path is None
        &&& self.format == ImportFormat::Sql
        &&& self.mode == ImportMode::Execute
        &&& self.sql_config == (SqlImportConfig {
            strip_comments: true,
            strip_empty_lines: true,
            stop_on_error: false,
            use_transaction: false,
        })
        &&& self.csv_config.is_default()
        &&& self.json_config.is_default()
        &&& self.preview is None
        &&& !self.loading
        &&& self.error is None
    }

    /// The state of a dialog that has just been opened.
    pub fn new() -> (r: Self)
        ensures
            r.is_initial(),
    {
        ImportState {
            file_path: None,
            format: ImportFormat::Sql,
            mode: ImportMode::Execute,
            sql_config: SqlImportConfig::default(),
            csv_config: CsvImportConfig::default(),
            json_config: JsonImportConfig::default(),
            preview: None,
            loading: false,
            error: None,
        }
    }

    /// Whether `after` is `before` with the file `path` chosen, where the
    /// path's extension is `ext` and its file name without extension is
    /// `stem`: the extension (`sql` if there is none) gives the format, the
    /// stem (`imported_data` if there is none) names the table of the CSV and
    /// JSON options, and the preview and the error are gone.
    pub open spec fn file_chosen(
        before: ImportState,
        path: PathBuf,
        ext: Option<Seq<char>>,
        stem: Option<Seq<char>>,
        after: ImportState,
    ) -> bool {
        let extension = match ext {
            Some(e) => e,
            None => "sql"@,
        };
        let table = match stem {
            Some(s) => s,
            None => "imported_data"@,
        };
        &&& after.file_path == Some(path)
        &&& after.format == ImportFormat::of_lowercase(lowercase(extension))
        &&& after.mode == before.mode
        &&& after.sql_config == before.sql_config
        &&& after.csv_config.table_name@ == table
        &&& after.csv_config.delimiter == before.csv_config.delimiter
        &&& after.csv_config.skip_rows == before.csv_config.skip_rows
        &&& after.csv_config.has_header == before.csv_config.has_header
        &&& after.csv_config.quote_char == before.csv_config.quote_char
        &&& after.csv_config.encoding@ == before.csv_config.encoding@
        &&& after.json_config.table_name@ == table
        &&& after.json_config.json_path@ == before.json_config.json_path@
        &&& after.json_config.flatten_nested == before.json_config.flatten_nested
        &&& after.preview is None
        &&& after.loading == before.loading
        &&& after.error is None
    }

    /// Chooses the file `path`, given its extension and its file name without
    /// extension.
    pub fn set_file_parts(&mut self, path: PathBuf, ext: Option<&str>, stem: Option<&str>)
        ensures
            Self::file_chosen(
                *old(self),
                path,
                match ext {
                    Some(e) => Some(e@),
                    None => None,
                },
                match stem {
                    Some(s) => Some(s@),
                    None => None,
                },
                *final(self),
            ),
    {
        let extension: &str = match ext {
            Some(e) => e,
            None => "sql",
        };
        self.format = ImportFormat::from_extension(extension);
        let table: &str = match stem {
            Some(s) => s,
            None => "imported_data",
        };
        self.csv_config.table_name = table.to_owned();
        self.json_config.table_name = table.to_owned();
        self.file_path = Some(path);
        self.preview = None;
        self.error = None;
    }

    /// Chooses the file `path`. The path's extension gives the format and its
    /// file name names the table, as `file_chosen` says for the extension and
    /// the stem that the platform finds in the path.
    pub fn set_file(&mut self, path: PathBuf)
        ensures
            exists|ext: Option<Seq<char>>, stem: Option<Seq<char>>|
                Self::file_chosen(*old(self), path, ext, stem, *final(self)),
    {
        let ext = extension_text(&path);
        let stem = stem_text(&path);
        let ext_ref: Option<&str> = match &ext {
            Some(e) => Some(e.as_str()),
            None => None,
        };
        let stem_ref: Option<&str> = match &stem {
            Some(s) => Some(s.as_str()),
            None => None,
        };
        self.set_file_parts(path, ext_ref, stem_ref);
        proof {
            let e: Option<Seq<char>> = match ext {
                Some(e) => Some(e@),
                None => None,
            };
            let s: Option<Seq<char>> = match stem {
                Some(s) => Some(s@),
                None => None,
            };
            assert(Self::file_chosen(*old(self), path, e, s, *self));
        }
    }

    /// Puts the dialog back into the state of one that has just been opened.
    pub fn clear(&mut self)
        ensures
            final(self).is_initial(),
    {
        *self = ImportState::new();
    }

    /// Whether the import can start: a file is chosen, it has been read, and
    /// reading it gave no error.
    pub open spec fn spec_can_import(&self) -> bool {
        self.file_path is Some && self.preview is Some && self.error is None
    }

    /// Whether the import can start.
    #[verifier::when_used_as_spec(spec_can_import)]
    pub fn can_import(&self) -> (r: bool)
        ensures
            r == self.spec_can_import(),
    {
        self.file_path.is_some() && self.preview.is_some() && self.error.is_none()
    }

    /// Selects a format. The preview belongs to the old format and is
    /// dropped.
    pub fn select_format(&mut self, format: ImportFormat)
        ensures
            *final(self) == (ImportState { format, preview: None, ..*old(self) }),
    {
        self.format = format;
        self.preview = None;
    }

    /// The text that goes to the editor: the statements of the preview, an
    /// empty line between each two.
    pub open spec fn editor_text(&self) -> Seq<char>
        recommends
            self.preview is Some,
    {
        joined(self.preview->0@.sql_statements, "\n\n"@)
    }

    /// What confirming the dialog asks for: in `Execute` mode the import, in
    /// `CopyToEditor` mode the statements for the editor, or nothing where
    /// there is no preview.
    pub fn confirm_action(&self) -> (action: ImportAction)
        ensures
            match self.mode {
                ImportMode::Execute => action is Execute,
                ImportMode::CopyToEditor => match self.preview {
                    Some(_) => action is CopyToEditor && action->CopyToEditor_0@
                        == self.editor_text(),
                    None => action is NoAction,
                },
            },
    {
        match self.mode {
            ImportMode::Execute => ImportAction::Execute,
            ImportMode::CopyToEditor => match &self.preview {
                Some(preview) => ImportAction::CopyToEditor(join(&preview.sql_statements, "\n\n")),
                None => ImportAction::NoAction,
            },
        }
    }

    /// The format after the format keys of one frame: `1`, `2` and `3` select
    /// a format, then `left` and `right` step through the cycle, in this
    /// order.
    pub open spec fn format_after(format: ImportFormat, keys: ImportKeys) -> ImportFormat {
        let f1 = if keys.sql {
            ImportFormat::Sql
        } else {
            format
        };
        let f2 = if keys.csv {
            ImportFormat::Csv
        } else {
            f1
        };
        let f3 = if keys.json {
            ImportFormat::Json
        } else {
            f2
        };
        let f4 = if keys.left {
            f3.preceding()
        } else {
            f3
        };
        if keys.right {
            f4.following()
        } else {
            f4
        }
    }

    /// Handles the keys of one frame, before the dialog is drawn.
    ///
    /// While a text field has the keyboard nothing happens. Otherwise the
    /// closing key hides the dialog and ends the frame with `Close`; else the
    /// confirming key, if the import can start, ends the frame with what
    /// `confirm_action` says; else the format keys select the format, and any
    /// of them drops the preview.
    pub fn handle_keys(&mut self, show: &mut bool, keys: &ImportKeys) -> (outcome: KeyOutcome)
        ensures
            keys.text_focus ==> outcome is Draw && *final(self) == *old(self) && *final(show)
                == *old(show),
            !keys.text_focus && keys.close ==> outcome is Done && outcome->Done_0 is Close
                && !*final(show) && *final(self) == *old(self),
            !keys.text_focus && !keys.close && keys.confirm && old(self).can_import() ==> {
                &&& outcome is Done
                &&& *final(show) == *old(show)
                &&& *final(self) == *old(self)
                &&& match old(self).mode {
                    ImportMode::Execute => outcome->Done_0 is Execute,
                    ImportMode::CopyToEditor => outcome->Done_0 is CopyToEditor
                        && outcome->Done_0->CopyToEditor_0@ == old(self).editor_text(),
                }
            },
            !keys.text_focus && !keys.close && !(keys.confirm && old(self).can_import()) ==> {
                &&& outcome is Draw
                &&& *final(show) == *old(show)
                &&& final(self).format == Self::format_after(old(self).format, *keys)
                &&& if keys.sql || keys.csv || keys.json || keys.left || keys.right {
                    *final(self) == (ImportState {
                        format: final(self).format,
                        preview: None,
                        ..*old(self)
                    })
                } else {
                    *final(self) == *old(self)
                }
            },
    {
        if keys.text_focus {
            return KeyOutcome::Draw;
        }
        if keys.close {
            *show = false;
            return KeyOutcome::Done(ImportAction::Close);
        }
        if keys.confirm && self.can_import() {
            return KeyOutcome::Done(self.confirm_action());
        }
        if keys.sql {
            self.select_format(ImportFormat::Sql);
        }
        if keys.csv {
            self.select_format(ImportFormat::Csv);
        }
        if keys.json {
            self.select_format(ImportFormat::Json);
        }
        if keys.left {
            let f = self.format.prev();
            self.select_format(f);
        }
        if keys.right {
            let f = self.format.next();
            self.select_format(f);
        }
        KeyOutcome::Draw
    }
}

impl Default for ImportState {
    fn default() -> (r: Self)
        ensures
            r.is_initial(),
    {
        ImportState::new()
    }
}

/// The import dialog. Its functions make up the texts that the dialog
/// shows; drawing is left to the caller.
pub struct ImportDialog;

impl ImportDialog {
    /// The path of the file as the dialog shows it: of a path of more than 60
    /// bytes the last 57, behind three dots. There is no such text where
    /// those 57 bytes would start inside a character.
    pub fn path_display(path_text: &str) -> (text: Option<String>)
        ensures
            text is Some == clip_start_ok(path_text@, 60, 57),
            text is Some ==> text->0@ == clipped_start(path_text@, 60, 57),
    {
        try_clip_start(path_text, 60, 57)
    }

    /// A statement as the preview shows it: of a statement of more than 100
    /// bytes the first 100, and three dots. There is no such text where byte
    /// 100 lies inside a character.
    pub fn statement_display(statement: &str) -> (text: Option<String>)
        ensures
            text is Some == clip_ok(statement@, 100, 100),
            text is Some ==> text->0@ == clipped(statement@, 100, 100),
    {
        try_clip(statement, 100, 100)
    }

    /// A cell as the preview shows it: of a cell of more than 30 bytes the
    /// first 27, and three dots. There is no such text where byte 27 lies
    /// inside a character.
    pub fn cell_display(cell: &str) -> (text: Option<String>)
        ensures
            text is Some == clip_ok(cell@, 30, 27),
            text is Some ==> text->0@ == clipped(cell@, 30, 27),
    {
        try_clip(cell, 30, 27)
    }

    /// The heading of the preview: the number of statements for an SQL file,
    /// the number of columns and rows for the others.
    pub fn preview_header(format: ImportFormat, preview: &ImportPreview) -> (text: String)
        ensures
            text@ == match format {
                ImportFormat::Sql => "预览 ("@ + decimal(preview.statement_count as nat)
                    + " 条 SQL 语句)"@,
                _ => "预览 ("@ + decimal(preview.columns@.len()) + " 列 × "@ + decimal(
                    preview.total_rows as nat,
                ) + " 行)"@,
            },
    {
        let mut out = chars_of("预览 (");
        match format {
            ImportFormat::Sql => {
                push_decimal(&mut out, preview.statement_count);
                push_str(&mut out, " 条 SQL 语句)");
            },
            _ => {
                push_decimal(&mut out, preview.columns.len());
                push_str(&mut out, " 列 × ");
                push_decimal(&mut out, preview.total_rows);
                push_str(&mut out, " 行)");
            },
        }
        string_of(&out)
    }

    /// The line that says how many statements the preview leaves out, if it
    /// leaves any out: it shows ten.
    pub fn more_statements(preview: &ImportPreview) -> (text: Option<String>)
        ensures
            match text {
                Some(t) => preview.statement_count > 10 && t@ == "... 还有 "@ + decimal(
                    (preview.statement_count - 10) as nat,
                ) + " 条语句"@,
                None => preview.statement_count <= 10,
            },
    {
        if preview.statement_count > 10 {
            let mut out = chars_of("... 还有 ");
            push_decimal(&mut out, preview.statement_count - 10);
            push_str(&mut out, " 条语句");
            Some(string_of(&out))
        } else {
            None
        }
    }

    /// The line that says how many rows the preview leaves out, if it leaves
    /// any out.
    pub fn more_rows(preview: &ImportPreview) -> (text: Option<String>)
        ensures
            match text {
                Some(t) => preview.total_rows > preview.preview_rows@.len() && t@
                    == "... 还有 "@ + decimal(
                    (preview.total_rows - preview.preview_rows@.len()) as nat,
                ) + " 行数据"@,
                None => preview.total_rows <= preview.preview_rows@.len(),
            },
    {
        if preview.total_rows > preview.preview_rows.len() {
            let mut out = chars_of("... 还有 ");
            push_decimal(&mut out, preview.total_rows - preview.preview_rows.len());
            push_str(&mut out, " 行数据");
            Some(string_of(&out))
        } else {
            None
        }
    }
}

} // verus!

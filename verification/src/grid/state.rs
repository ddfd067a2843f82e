//! The state of the data grid.

use crate::text::{
    chars_of, decimal, has_prefix, parse_number, parse_usize, push_decimal, push_range, push_str,
    starts_with, string_of, trim, trimmed,
};
use std::collections::HashMap;
use vstd::prelude::*;

verus! {

/// The mode of the grid.
#[derive(Debug, Clone, Copy, PartialEq, Eq, Structural)]
pub enum GridMode {
    /// Keys move the cursor and give commands.
    Normal,
    /// Keys edit the cell under the cursor.
    Insert,
    /// Moving the cursor stretches the selection.
    Select,
}

impl GridMode {
    /// The keys that the mode offers, as shown beside the grid.
    pub open spec fn help_text(self) -> Seq<char> {
        match self {
            GridMode::Normal => "hjkl:移动 i:编辑 v:选择 d:删除 y:复制 p:粘贴 gg:顶部 G:底部"@,
            GridMode::Insert => "Esc:退出 Enter:确认"@,
            GridMode::Select => "hjkl:扩展 d:删除 y:复制 Esc:取消"@,
        }
    }

    /// The keys that the mode offers, as shown beside the grid.
    pub fn help(&self) -> (r: &'static str)
        ensures
            r@ == self.help_text(),
    {
        match self {
            GridMode::Normal => "hjkl:移动 i:编辑 v:选择 d:删除 y:复制 p:粘贴 gg:顶部 G:底部",
            GridMode::Insert => "Esc:退出 Enter:确认",
            GridMode::Select => "hjkl:扩展 d:删除 y:复制 Esc:取消",
        }
    }
}

impl Default for GridMode {
    fn default() -> (r: Self)
        ensures
            r == GridMode::Normal,
    {
        GridMode::Normal
    }
}

/// The widths of the columns, kept until the data changes.
///
/// A width is stored as the bit pattern of the 32-bit float that the renderer
/// measures with. The cache never looks inside a width.
#[derive(Debug, Clone)]
pub struct ColumnWidthCache {
    /// The widths, one for each column.
    pub widths: Vec<u32>,
    /// The hash of the data the widths were measured on.
    pub data_hash: u64,
    /// How many columns were measured.
    pub column_count: usize,
    /// How many rows were measured.
    pub sample_row_count: usize,
}

impl ColumnWidthCache {
    /// Whether the cache is empty.
    pub open spec fn is_cleared(&self) -> bool {
        &&& self.widths@.len() == 0
        &&& self.data_hash == 0
        &&& self.column_count == 0
        &&& self.sample_row_count == 0
    }

    /// Whether the widths were measured on data with these three marks.
    pub open spec fn matches(&self, column_count: usize, sample_row_count: usize, data_hash: u64) -> bool {
        self.column_count == column_count && self.sample_row_count == sample_row_count
            && self.data_hash == data_hash
    }

    /// Whether the widths still hold for data with these three marks.
    pub fn is_valid(&self, column_count: usize, sample_row_count: usize, data_hash: u64) -> (r:
        bool)
        ensures
            r == self.matches(column_count, sample_row_count, data_hash),
    {
        self.column_count == column_count && self.sample_row_count == sample_row_count
            && self.data_hash == data_hash
    }

    /// Stores widths with the marks of the data they were measured on.
    pub fn update(
        &mut self,
        widths: Vec<u32>,
        column_count: usize,
        sample_row_count: usize,
        data_hash: u64,
    )
        ensures
            *final(self) == (ColumnWidthCache {
                widths,
                data_hash,
                column_count,
                sample_row_count,
            }),
            final(self).matches(column_count, sample_row_count, data_hash),
    {
        self.widths = widths;
        self.column_count = column_count;
        self.sample_row_count = sample_row_count;
        self.data_hash = data_hash;
    }

    /// Empties the cache.
    pub fn clear(&mut self)
        ensures
            final(self).is_cleared(),
    {
        self.widths.clear();
        self.data_hash = 0;
        self.column_count = 0;
        self.sample_row_count = 0;
    }
}

impl Default for ColumnWidthCache {
    fn default() -> (r: Self)
        ensures
            r.is_cleared(),
    {
        ColumnWidthCache { widths: Vec::new(), data_hash: 0, column_count: 0, sample_row_count: 0 }
    }
}

/// What kind of statement has run, as far as the cursor cares.
#[derive(Debug, Clone, Copy, PartialEq, Eq, Structural)]
pub enum StatementKind {
    /// `UPDATE` or `DELETE`.
    UpdateOrDelete,
    /// `INSERT`.
    Insert,
    /// Anything else.
    Other,
}

impl StatementKind {
    /// The kind of a statement whose trimmed lower-case form is `lower`.
    pub open spec fn of_lowercase(lower: Seq<char>) -> StatementKind {
        if crate::text::has_prefix(lower, "update"@) || crate::text::has_prefix(lower, "delete"@) {
            StatementKind::UpdateOrDelete
        } else if crate::text::has_prefix(lower, "insert"@) {
            StatementKind::Insert
        } else {
            StatementKind::Other
        }
    }

    /// The kind of a statement, given its trimmed lower-case form.
    pub fn from_lowercase(lower: &str) -> (kind: StatementKind)
        ensures
            kind == Self::of_lowercase(lower@),
    {
        let v = chars_of(lower);
        if starts_with(&v, "update") || starts_with(&v, "delete") {
            StatementKind::UpdateOrDelete
        } else if starts_with(&v, "insert") {
            StatementKind::Insert
        } else {
            StatementKind::Other
        }
    }

    /// The kind of the statement `sql`.
    pub fn of(sql: &str) -> (kind: StatementKind)
        ensures
            kind == Self::of_lowercase(crate::text::lowercase(trim(sql@))),
    {
        let core = crate::text::string_of(&trimmed(&chars_of(sql)));
        let lower = core.as_str().to_lowercase();
        Self::from_lowercase(lower.as_str())
    }
}

/// A rectangle of cells: its upper left and its lower right corner, each as
/// row and column.
pub type Selection = ((usize, usize), (usize, usize));

/// The state of the data grid.
pub struct DataGridState {
    /// The mode.
    pub mode: GridMode,
    /// The cell under the cursor, as row and column.
    pub cursor: (usize, usize),
    /// The cell where the selection started.
    pub select_anchor: Option<(usize, usize)>,
    /// The cell that is being edited.
    pub editing_cell: Option<(usize, usize)>,
    /// The text in the cell editor.
    pub edit_text: String,
    /// The text that the cell held before the edit.
    pub original_value: String,
    /// The new texts of the cells that were changed.
    pub modified_cells: HashMap<(usize, usize), String>,
    /// The rows to delete.
    pub rows_to_delete: Vec<usize>,
    /// The rows to add.
    pub new_rows: Vec<Vec<String>>,
    /// What was copied last.
    pub clipboard: Option<String>,
    /// The keys of a command that takes several, such as `gg`.
    pub command_buffer: String,
    /// Whether the grid has the keyboard.
    pub focused: bool,
    /// How often to repeat the next move, as in `5j`.
    pub count: Option<usize>,
    /// The row to scroll to.
    pub scroll_to_row: Option<usize>,
    /// The column to scroll to.
    pub scroll_to_col: Option<usize>,
    /// The column that the cursor was in one frame earlier.
    pub last_cursor_col: usize,
    /// Whether the dialog that asks for a row number is open.
    pub show_goto_dialog: bool,
    /// The text in that dialog.
    pub goto_input: String,
    /// Whether saving was asked for.
    pub pending_save: bool,
    /// Whether the dialog that confirms saving is open.
    pub show_save_confirm: bool,
    /// The statements that wait for the confirmation.
    pub pending_sql: Vec<String>,
    /// The index of the primary key column, if it is known.
    pub primary_key_column: Option<usize>,
    /// Why the search pattern is not valid.
    pub regex_error: Option<String>,
    /// An edit of a row that is still to be added: row, column and new text.
    pub pending_new_row_edit: Option<(usize, usize, String)>,
    /// The widths of the columns.
    pub column_width_cache: ColumnWidthCache,
}

/// The smaller of two numbers.
pub open spec fn least(a: usize, b: usize) -> usize {
    if a <= b {
        a
    } else {
        b
    }
}

/// The greater of two numbers.
pub open spec fn most(a: usize, b: usize) -> usize {
    if a >= b {
        a
    } else {
        b
    }
}

/// The index reached from `pos` by `count` steps of `delta` in a range of
/// `max` indices: not below 0 and not above `max - 1`. An empty range leaves
/// no index to stand on, and the position is then the largest number.
pub open spec fn stepped(pos: usize, delta: isize, count: usize, max: usize) -> usize {
    let target = pos + delta * count;
    if max == 0 {
        usize::MAX
    } else if target < 0 {
        0
    } else if target > max - 1 {
        (max - 1) as usize
    } else {
        target as usize
    }
}

/// Whether a move of `count` steps of `delta` from `pos` in a range of `max`
/// indices can be computed in machine integers.
pub open spec fn step_fits(pos: usize, delta: isize, count: usize, max: usize) -> bool {
    &&& pos <= isize::MAX
    &&& count <= isize::MAX
    &&& max <= isize::MAX
    &&& isize::MIN <= delta * count <= isize::MAX
    &&& isize::MIN <= pos + delta * count <= isize::MAX
}

/// The index reached from `pos` by `count` steps of `delta`.
fn step(pos: usize, delta: isize, count: usize, max: usize) -> (r: usize)
    requires
        step_fits(pos, delta, count, max),
    ensures
        r == stepped(pos, delta, count, max),
{
    let way: isize = delta * (count as isize);
    let target: isize = (pos as isize) + way;
    if max == 0 {
        usize::MAX
    } else if target < 0 {
        0
    } else if target > (max as isize) - 1 {
        max - 1
    } else {
        target as usize
    }
}

impl DataGridState {
    /// Whether nothing waits to be saved.
    pub open spec fn is_clean(&self) -> bool {
        &&& self.modified_cells@.len() == 0
        &&& self.rows_to_delete@.len() == 0
        &&& self.new_rows@.len() == 0
    }

    /// Whether no cell is being edited and nothing waits to be saved.
    pub open spec fn no_edits(&self) -> bool {
        &&& self.editing_cell is None
        &&& self.edit_text@.len() == 0
        &&& self.original_value@.len() == 0
        &&& self.is_clean()
        &&& self.column_width_cache.is_cleared()
    }

    /// Whether the state is that of a grid that has just been made.
    pub open spec fn is_initial(&self) -> bool {
        &&& self.mode == GridMode::Normal
        &&& self.cursor == (0usize, 0usize)
        &&& self.select_anchor is None
        &&& self.no_edits()
        &&& self.clipboard is None
        &&& self.command_buffer@.len() == 0
        &&& self.focused
        &&& self.count is None
        &&& self.scroll_to_row is None
        &&& self.scroll_to_col is None
        &&& self.last_cursor_col == 0
        &&& !self.show_goto_dialog
        &&& self.goto_input@.len() == 0
        &&& !self.pending_save
        &&& !self.show_save_confirm
        &&& self.pending_sql@.len() == 0
        &&& self.primary_key_column is None
        &&& self.regex_error is None
        &&& self.pending_new_row_edit is None
    }

    /// A grid in normal mode with the cursor in the first cell, the keyboard,
    /// and nothing else.
    pub fn new() -> (state: DataGridState)
        ensures
            state.is_initial(),
    {
        DataGridState {
            mode: GridMode::Normal,
            cursor: (0, 0),
            select_anchor: None,
            editing_cell: None,
            edit_text: String::new(),
            original_value: String::new(),
            modified_cells: HashMap::new(),
            rows_to_delete: Vec::new(),
            new_rows: Vec::new(),
            clipboard: None,
            command_buffer: String::new(),
            focused: true,
            count: None,
            scroll_to_row: None,
            scroll_to_col: None,
            last_cursor_col: 0,
            show_goto_dialog: false,
            goto_input: String::new(),
            pending_save: false,
            show_save_confirm: false,
            pending_sql: Vec::new(),
            primary_key_column: None,
            regex_error: None,
            pending_new_row_edit: None,
            column_width_cache: ColumnWidthCache::default(),
        }
    }

    /// Whether `after` shows the grid as `before` does: the mode, the
    /// selection's anchor, the clipboard, the dialog that confirms saving and
    /// what is known of the columns are the same.
    pub open spec fn same_view(before: DataGridState, after: DataGridState) -> bool {
        &&& after.mode == before.mode
        &&& after.select_anchor == before.select_anchor
        &&& after.clipboard == before.clipboard
        &&& after.last_cursor_col == before.last_cursor_col
        &&& after.show_save_confirm == before.show_save_confirm
        &&& after.pending_sql == before.pending_sql
        &&& after.primary_key_column == before.primary_key_column
        &&& after.regex_error == before.regex_error
    }

    /// Whether the cursor, the count, the command under way and the place to
    /// scroll to are the same in `after` as in `before`.
    pub open spec fn same_cursor(before: DataGridState, after: DataGridState) -> bool {
        &&& after.cursor == before.cursor
        &&& after.count == before.count
        &&& after.command_buffer == before.command_buffer
        &&& after.scroll_to_row == before.scroll_to_row
        &&& after.scroll_to_col == before.scroll_to_col
    }

    /// Whether the edit under way, what waits to be saved and the widths
    /// measured are the same in `after` as in `before`.
    pub open spec fn same_edits(before: DataGridState, after: DataGridState) -> bool {
        &&& after.editing_cell == before.editing_cell
        &&& after.edit_text == before.edit_text
        &&& after.original_value == before.original_value
        &&& after.modified_cells == before.modified_cells
        &&& after.rows_to_delete == before.rows_to_delete
        &&& after.new_rows == before.new_rows
        &&& after.pending_new_row_edit == before.pending_new_row_edit
        &&& after.column_width_cache == before.column_width_cache
    }

    /// Whether the jump dialog, the request to save and the keyboard are the
    /// same in `after` as in `before`.
    pub open spec fn same_requests(before: DataGridState, after: DataGridState) -> bool {
        &&& after.show_goto_dialog == before.show_goto_dialog
        &&& after.goto_input == before.goto_input
        &&& after.pending_save == before.pending_save
        &&& after.focused == before.focused
    }

    /// Drops the edit under way and everything that waits to be saved, and
    /// with them the widths measured on the old data.
    pub fn clear_edits(&mut self)
        ensures
            final(self).no_edits(),
            final(self).pending_new_row_edit == old(self).pending_new_row_edit,
            Self::same_view(*old(self), *final(self)),
            Self::same_cursor(*old(self), *final(self)),
            Self::same_requests(*old(self), *final(self)),
    {
        self.editing_cell = None;
        self.edit_text = String::new();
        self.original_value = String::new();
        self.modified_cells.clear();
        self.rows_to_delete.clear();
        self.new_rows.clear();
        self.column_width_cache.clear();
    }

    /// Whether something waits to be saved: a changed cell, a row to delete
    /// or a row to add.
    pub fn has_changes(&self) -> (r: bool)
        ensures
            r == !self.is_clean(),
    {
        !self.modified_cells.is_empty() || !self.rows_to_delete.is_empty()
            || !self.new_rows.is_empty()
    }

    /// The rectangle between the anchor and the cursor.
    pub open spec fn selection(&self) -> Option<Selection> {
        match self.select_anchor {
            Some(anchor) => Some(
                (
                    (least(anchor.0, self.cursor.0), least(anchor.1, self.cursor.1)),
                    (most(anchor.0, self.cursor.0), most(anchor.1, self.cursor.1)),
                ),
            ),
            None => None,
        }
    }

    /// The selected rectangle: the cells between the anchor and the cursor,
    /// if there is an anchor.
    pub fn get_selection(&self) -> (r: Option<Selection>)
        ensures
            r == self.selection(),
    {
        match self.select_anchor {
            Some(anchor) => {
                let min_row: usize = if anchor.0 <= self.cursor.0 {
                    anchor.0
                } else {
                    self.cursor.0
                };
                let max_row: usize = if anchor.0 >= self.cursor.0 {
                    anchor.0
                } else {
                    self.cursor.0
                };
                let min_col: usize = if anchor.1 <= self.cursor.1 {
                    anchor.1
                } else {
                    self.cursor.1
                };
                let max_col: usize = if anchor.1 >= self.cursor.1 {
                    anchor.1
                } else {
                    self.cursor.1
                };
                Some(((min_row, min_col), (max_row, max_col)))
            },
            None => None,
        }
    }

    /// Whether the cell lies in the selected rectangle.
    pub open spec fn selected(&self, row: usize, col: usize) -> bool {
        match self.selection() {
            Some(((min_row, min_col), (max_row, max_col))) => min_row <= row <= max_row && min_col
                <= col <= max_col,
            None => false,
        }
    }

    /// Whether the cell lies in the selected rectangle.
    pub fn is_in_selection(&self, row: usize, col: usize) -> (r: bool)
        ensures
            r == self.selected(row, col),
    {
        match self.get_selection() {
            Some(((min_row, min_col), (max_row, max_col))) => row >= min_row && row <= max_row
                && col >= min_col && col <= max_col,
            None => false,
        }
    }

    /// The anchor and the cursor are corners of the selection, so both lie in
    /// it, and no cell does without an anchor.
    pub proof fn lemma_selection_holds_corners(&self)
        ensures
            self.select_anchor is Some ==> self.selected(self.cursor.0, self.cursor.1),
            self.select_anchor matches Some((row, col)) ==> self.selected(row, col),
            self.select_anchor is None ==> forall|r: usize, c: usize| !self.selected(r, c),
    {
    }

    /// How often the next move is made: the count typed before it, or once.
    pub open spec fn repeat(&self) -> usize {
        match self.count {
            Some(n) => n,
            None => 1,
        }
    }

    /// Whether `move_cursor` can compute the move in machine integers.
    pub open spec fn move_fits(
        &self,
        delta_row: isize,
        delta_col: isize,
        max_row: usize,
        max_col: usize,
    ) -> bool {
        step_fits(self.cursor.0, delta_row, self.repeat(), max_row) && step_fits(
            self.cursor.1,
            delta_col,
            self.repeat(),
            max_col,
        )
    }

    /// Moves the cursor by `delta_row` rows and `delta_col` columns, as often
    /// as the count says, inside a grid of `max_row` rows and `max_col`
    /// columns. The count is used up, and the grid scrolls to the cursor.
    pub fn move_cursor(&mut self, delta_row: isize, delta_col: isize, max_row: usize, max_col: usize)
        requires
            old(self).move_fits(delta_row, delta_col, max_row, max_col),
        ensures
            final(self).cursor.0 == stepped(
                old(self).cursor.0,
                delta_row,
                old(self).repeat(),
                max_row,
            ),
            final(self).cursor.1 == stepped(
                old(self).cursor.1,
                delta_col,
                old(self).repeat(),
                max_col,
            ),
            final(self).count is None,
            final(self).scroll_to_row == Some(final(self).cursor.0),
            final(self).scroll_to_col == Some(final(self).cursor.1),
            final(self).command_buffer == old(self).command_buffer,
            Self::same_view(*old(self), *final(self)),
            Self::same_edits(*old(self), *final(self)),
            Self::same_requests(*old(self), *final(self)),
    {
        let count: usize = match self.count {
            Some(n) => n,
            None => 1,
        };
        let new_row = step(self.cursor.0, delta_row, count, max_row);
        let new_col = step(self.cursor.1, delta_col, count, max_col);
        self.cursor = (new_row, new_col);
        self.count = None;
        self.scroll_to_row = Some(new_row);
        self.scroll_to_col = Some(new_col);
    }

    /// Puts the cursor into the first column.
    pub fn goto_line_start(&mut self)
        ensures
            final(self).cursor == (old(self).cursor.0, 0usize),
            final(self).count is None,
            final(self).scroll_to_row == old(self).scroll_to_row,
            final(self).scroll_to_col == old(self).scroll_to_col,
            final(self).command_buffer == old(self).command_buffer,
            Self::same_view(*old(self), *final(self)),
            Self::same_edits(*old(self), *final(self)),
            Self::same_requests(*old(self), *final(self)),
    {
        self.cursor.1 = 0;
        self.count = None;
    }

    /// Puts the cursor into the last of `max_col` columns.
    pub fn goto_line_end(&mut self, max_col: usize)
        ensures
            final(self).cursor == (
                old(self).cursor.0,
                if max_col == 0 {
                    0usize
                } else {
                    (max_col - 1) as usize
                },
            ),
            final(self).count is None,
            final(self).scroll_to_row == old(self).scroll_to_row,
            final(self).scroll_to_col == old(self).scroll_to_col,
            final(self).command_buffer == old(self).command_buffer,
            Self::same_view(*old(self), *final(self)),
            Self::same_edits(*old(self), *final(self)),
            Self::same_requests(*old(self), *final(self)),
    {
        self.cursor.1 = if max_col == 0 {
            0
        } else {
            max_col - 1
        };
        self.count = None;
    }

    /// Puts the cursor into the first cell, and ends the command under way.
    pub fn goto_file_start(&mut self)
        ensures
            final(self).cursor == (0usize, 0usize),
            final(self).count is None,
            final(self).command_buffer@.len() == 0,
            final(self).scroll_to_row == Some(0usize),
            final(self).scroll_to_col == old(self).scroll_to_col,
            Self::same_view(*old(self), *final(self)),
            Self::same_edits(*old(self), *final(self)),
            Self::same_requests(*old(self), *final(self)),
    {
        self.cursor = (0, 0);
        self.count = None;
        self.command_buffer = String::new();
        self.scroll_to_row = Some(0);
    }

    /// Puts the cursor into the last of `max_row` rows.
    pub fn goto_file_end(&mut self, max_row: usize)
        ensures
            final(self).cursor == (
                if max_row == 0 {
                    0usize
                } else {
                    (max_row - 1) as usize
                },
                old(self).cursor.1,
            ),
            final(self).count is None,
            final(self).scroll_to_row == Some(final(self).cursor.0),
            final(self).scroll_to_col == old(self).scroll_to_col,
            final(self).command_buffer == old(self).command_buffer,
            Self::same_view(*old(self), *final(self)),
            Self::same_edits(*old(self), *final(self)),
            Self::same_requests(*old(self), *final(self)),
    {
        self.cursor.0 = if max_row == 0 {
            0
        } else {
            max_row - 1
        };
        self.count = None;
        self.scroll_to_row = Some(self.cursor.0);
    }

    /// A move inside a grid that has rows and columns leaves the cursor
    /// inside the grid.
    pub proof fn lemma_move_stays_inside(pos: usize, delta: isize, count: usize, max: usize)
        requires
            max > 0,
        ensures
            stepped(pos, delta, count, max) < max,
    {
    }

    /// The row that the text of the jump dialog names, counted from 0: the
    /// text, trimmed, must be a number from 1 to `max_row`.
    pub open spec fn goto_target(input: Seq<char>, max_row: usize) -> Option<usize> {
        match parse_usize(trim(input)) {
            Some(line) => if 1 <= line <= max_row {
                Some((line - 1) as usize)
            } else {
                None
            },
            None => None,
        }
    }

    /// Confirms the jump dialog: the cursor goes to the row that the dialog's
    /// text names, if it names one of the `max_row` rows, and the grid
    /// scrolls there. The dialog closes and its text is dropped either way.
    pub fn confirm_goto(&mut self, max_row: usize)
        ensures
            !final(self).show_goto_dialog,
            final(self).goto_input@.len() == 0,
            final(self).cursor == match Self::goto_target(old(self).goto_input@, max_row) {
                Some(row) => (row, old(self).cursor.1),
                None => old(self).cursor,
            },
            final(self).scroll_to_row == match Self::goto_target(old(self).goto_input@, max_row) {
                Some(row) => Some(row),
                None => old(self).scroll_to_row,
            },
            final(self).count == old(self).count,
            final(self).scroll_to_col == old(self).scroll_to_col,
            final(self).command_buffer == old(self).command_buffer,
            final(self).pending_save == old(self).pending_save,
            final(self).focused == old(self).focused,
            Self::same_view(*old(self), *final(self)),
            Self::same_edits(*old(self), *final(self)),
    {
        let text = trimmed(&chars_of(self.goto_input.as_str()));
        match parse_number(&text) {
            Some(line) => {
                if line >= 1 && line <= max_row {
                    self.cursor.0 = line - 1;
                    self.scroll_to_row = Some(self.cursor.0);
                }
            },
            None => {},
        }
        self.show_goto_dialog = false;
        self.goto_input = String::new();
    }

    /// Closes the jump dialog and drops its text.
    pub fn cancel_goto(&mut self)
        ensures
            !final(self).show_goto_dialog,
            final(self).goto_input@.len() == 0,
            final(self).pending_save == old(self).pending_save,
            final(self).focused == old(self).focused,
            Self::same_view(*old(self), *final(self)),
            Self::same_cursor(*old(self), *final(self)),
            Self::same_edits(*old(self), *final(self)),
    {
        self.show_goto_dialog = false;
        self.goto_input = String::new();
    }

    /// The index among the rows to add of the row shown at `virtual_row`,
    /// where `existing_rows` rows come before the rows to add.
    pub open spec fn new_row_index(virtual_row: usize, existing_rows: usize) -> usize {
        if virtual_row >= existing_rows {
            (virtual_row - existing_rows) as usize
        } else {
            0
        }
    }

    /// The rows to add once the edit `(row, col, text)` has been carried out
    /// on them: the cell takes the text if the row is one of the rows to add
    /// and has the column; else nothing changes.
    pub open spec fn rows_after_edit(
        rows: Seq<Vec<String>>,
        existing_rows: usize,
        edit: (usize, usize, String),
        after: Seq<Vec<String>>,
    ) -> bool {
        let (row, col, text) = edit;
        let index = Self::new_row_index(row, existing_rows);
        if index < rows.len() && col < rows[index as int]@.len() {
            &&& after.len() == rows.len()
            &&& after[index as int]@ == rows[index as int]@.update(col as int, text)
            &&& forall|i: int| 0 <= i < rows.len() && i != index ==> after[i] == rows[i]
        } else {
            after == rows
        }
    }

    /// Carries out the edit that waits for a row to add, where
    /// `existing_rows` rows come before the rows to add.
    pub fn apply_pending_new_row_edit(&mut self, existing_rows: usize)
        ensures
            final(self).pending_new_row_edit is None,
            match old(self).pending_new_row_edit {
                Some(edit) => Self::rows_after_edit(
                    old(self).new_rows@,
                    existing_rows,
                    edit,
                    final(self).new_rows@,
                ),
                None => final(self).new_rows == old(self).new_rows,
            },
            final(self).editing_cell == old(self).editing_cell,
            final(self).edit_text == old(self).edit_text,
            final(self).original_value == old(self).original_value,
            final(self).modified_cells == old(self).modified_cells,
            final(self).rows_to_delete == old(self).rows_to_delete,
            final(self).column_width_cache == old(self).column_width_cache,
            Self::same_view(*old(self), *final(self)),
            Self::same_cursor(*old(self), *final(self)),
            Self::same_requests(*old(self), *final(self)),
    {
        let pending = self.pending_new_row_edit.take();
        if let Some((row, col, text)) = pending {
            let index: usize = if row >= existing_rows {
                row - existing_rows
            } else {
                0
            };
            if index < self.new_rows.len() && col < self.new_rows[index].len() {
                let cells = &mut self.new_rows[index];
                cells[col] = text;
            }
        }
    }

    /// The cells of an empty row of `n` columns.
    pub open spec fn empty_row(n: usize) -> Seq<Seq<char>> {
        Seq::new(n as nat, |i: int| Seq::<char>::empty())
    }

    /// Adds an empty row of `column_count` columns behind the rows to add,
    /// where `existing_rows` rows come before them. The cursor goes to the
    /// first cell of the new row, the grid scrolls there and takes the
    /// keyboard.
    pub fn add_row(&mut self, column_count: usize, existing_rows: usize)
        requires
            existing_rows + old(self).new_rows@.len() < usize::MAX,
        ensures
            final(self).new_rows@.len() == old(self).new_rows@.len() + 1,
            final(self).new_rows@.drop_last() == old(self).new_rows@,
            crate::import::types::texts(final(self).new_rows@.last()@) == Self::empty_row(
                column_count,
            ),
            final(self).cursor == ((existing_rows + old(self).new_rows@.len()) as usize, 0usize),
            final(self).scroll_to_row == Some(final(self).cursor.0),
            final(self).focused,
            !final(self).is_clean(),
            final(self).count == old(self).count,
            final(self).command_buffer == old(self).command_buffer,
            final(self).scroll_to_col == old(self).scroll_to_col,
            final(self).editing_cell == old(self).editing_cell,
            final(self).edit_text == old(self).edit_text,
            final(self).original_value == old(self).original_value,
            final(self).modified_cells == old(self).modified_cells,
            final(self).rows_to_delete == old(self).rows_to_delete,
            final(self).pending_new_row_edit == old(self).pending_new_row_edit,
            final(self).column_width_cache == old(self).column_width_cache,
            final(self).show_goto_dialog == old(self).show_goto_dialog,
            final(self).goto_input == old(self).goto_input,
            final(self).pending_save == old(self).pending_save,
            Self::same_view(*old(self), *final(self)),
    {
        let mut cells: Vec<String> = Vec::new();
        let mut i: usize = 0;
        while i < column_count
            invariant
                i <= column_count,
                cells@.len() == i,
                forall|j: int| 0 <= j < i ==> (#[trigger] cells@[j])@ == Seq::<char>::empty(),
            decreases column_count - i,
        {
            cells.push(String::new());
            i += 1;
        }
        assert(crate::import::types::texts(cells@) =~= Self::empty_row(column_count));
        self.new_rows.push(cells);
        assert(self.new_rows@.drop_last() =~= old(self).new_rows@);
        let row: usize = existing_rows + self.new_rows.len() - 1;
        self.cursor = (row, 0);
        self.scroll_to_row = Some(row);
        self.focused = true;
    }

    /// Places the cursor after a statement has run and left `row_count` rows
    /// to show: after an update or a delete the grid scrolls to the cursor;
    /// after an insert the cursor goes to the first cell of the last row and
    /// the grid scrolls there; after anything else nothing moves.
    pub fn place_cursor_after(&mut self, kind: StatementKind, row_count: usize)
        ensures
            final(self).cursor == match kind {
                StatementKind::Insert => (
                    if row_count == 0 {
                        0usize
                    } else {
                        (row_count - 1) as usize
                    },
                    0usize,
                ),
                _ => old(self).cursor,
            },
            final(self).scroll_to_row == match kind {
                StatementKind::Other => old(self).scroll_to_row,
                _ => Some(final(self).cursor.0),
            },
            final(self).scroll_to_col == old(self).scroll_to_col,
            final(self).count == old(self).count,
            final(self).command_buffer == old(self).command_buffer,
            Self::same_view(*old(self), *final(self)),
            Self::same_edits(*old(self), *final(self)),
            Self::same_requests(*old(self), *final(self)),
    {
        match kind {
            StatementKind::UpdateOrDelete => {
                self.scroll_to_row = Some(self.cursor.0);
            },
            StatementKind::Insert => {
                let last: usize = if row_count == 0 {
                    0
                } else {
                    row_count - 1
                };
                self.cursor = (last, 0);
                self.scroll_to_row = Some(last);
            },
            StatementKind::Other => {},
        }
    }

    /// The cursor as the bar above the grid shows it: row and column, both
    /// counted from 1.
    pub fn position_text(&self) -> (text: String)
        requires
            self.cursor.0 < usize::MAX,
            self.cursor.1 < usize::MAX,
        ensures
            text@ == decimal((self.cursor.0 + 1) as nat) + ":"@ + decimal(
                (self.cursor.1 + 1) as nat,
            ),
    {
        let mut out: Vec<char> = Vec::new();
        push_decimal(&mut out, self.cursor.0 + 1);
        push_str(&mut out, ":");
        push_decimal(&mut out, self.cursor.1 + 1);
        assert(out@ =~= decimal((self.cursor.0 + 1) as nat) + ":"@ + decimal(
            (self.cursor.1 + 1) as nat,
        ));
        string_of(&out)
    }

    /// The size of the selection as the bar above the grid shows it: rows by
    /// columns.
    pub fn selection_text(&self) -> (text: Option<String>)
        requires
            self.selection() matches Some(((min_row, min_col), (max_row, max_col))) ==> max_row
                - min_row < usize::MAX && max_col - min_col < usize::MAX,
        ensures
            match self.selection() {
                Some(((min_row, min_col), (max_row, max_col))) => text is Some && text->0@
                    == "选择: "@ + decimal((max_row - min_row + 1) as nat) + "x"@ + decimal(
                    (max_col - min_col + 1) as nat,
                ),
                None => text is None,
            },
    {
        match self.get_selection() {
            Some(((min_row, min_col), (max_row, max_col))) => {
                let mut out = chars_of("选择: ");
                push_decimal(&mut out, max_row - min_row + 1);
                push_str(&mut out, "x");
                push_decimal(&mut out, max_col - min_col + 1);
                Some(string_of(&out))
            },
            None => None,
        }
    }

    /// Takes the request to save, and says whether there is something to
    /// save.
    pub fn take_save_request(&mut self) -> (save: bool)
        ensures
            save == (old(self).pending_save && !old(self).is_clean()),
            !final(self).pending_save,
            final(self).show_goto_dialog == old(self).show_goto_dialog,
            final(self).goto_input == old(self).goto_input,
            final(self).focused == old(self).focused,
            Self::same_view(*old(self), *final(self)),
            Self::same_cursor(*old(self), *final(self)),
            Self::same_edits(*old(self), *final(self)),
    {
        let save = self.pending_save && self.has_changes();
        self.pending_save = false;
        save
    }

    /// Takes the row that the grid is to scroll to in this frame. The column
    /// to scroll to is dropped with it: sideways the grid follows the column
    /// of the cursor.
    pub fn take_scroll_target(&mut self) -> (row: Option<usize>)
        ensures
            row == old(self).scroll_to_row,
            final(self).scroll_to_row is None,
            final(self).scroll_to_col is None,
            final(self).cursor == old(self).cursor,
            final(self).count == old(self).count,
            final(self).command_buffer == old(self).command_buffer,
            Self::same_view(*old(self), *final(self)),
            Self::same_edits(*old(self), *final(self)),
            Self::same_requests(*old(self), *final(self)),
    {
        let row = self.scroll_to_row;
        self.scroll_to_row = None;
        self.scroll_to_col = None;
        row
    }

    /// Takes note of the column of the cursor, and says whether the cursor
    /// has left the column that it was in one frame earlier.
    pub fn track_cursor_column(&mut self) -> (changed: bool)
        ensures
            changed == (old(self).cursor.1 != old(self).last_cursor_col),
            final(self).last_cursor_col == old(self).cursor.1,
            final(self).mode == old(self).mode,
            final(self).select_anchor == old(self).select_anchor,
            final(self).clipboard == old(self).clipboard,
            final(self).show_save_confirm == old(self).show_save_confirm,
            final(self).pending_sql == old(self).pending_sql,
            final(self).primary_key_column == old(self).primary_key_column,
            final(self).regex_error == old(self).regex_error,
            Self::same_cursor(*old(self), *final(self)),
            Self::same_edits(*old(self), *final(self)),
            Self::same_requests(*old(self), *final(self)),
    {
        let changed = self.cursor.1 != self.last_cursor_col;
        self.last_cursor_col = self.cursor.1;
        changed
    }

    /// The hint in the dialog that asks for a row: the range of the numbers
    /// that it takes.
    pub fn goto_hint(max_row: usize) -> (text: String)
        ensures
            text@ == "1-"@ + decimal(max_row as nat),
    {
        let mut out = chars_of("1-");
        push_decimal(&mut out, max_row);
        string_of(&out)
    }

    /// The two lines at the head of the dialog that confirms saving: how
    /// many rows will be deleted, and how many statements will run.
    pub fn save_summary(&self) -> (lines: (String, String))
        ensures
            lines.0@ == "将删除 "@ + decimal(self.rows_to_delete@.len()) + " 行数据"@,
            lines.1@ == "共 "@ + decimal(self.pending_sql@.len()) + " 条 SQL 语句"@,
    {
        let mut deleted = chars_of("将删除 ");
        push_decimal(&mut deleted, self.rows_to_delete.len());
        push_str(&mut deleted, " 行数据");
        let mut all = chars_of("共 ");
        push_decimal(&mut all, self.pending_sql.len());
        push_str(&mut all, " 条 SQL 语句");
        (string_of(&deleted), string_of(&all))
    }

    /// The lines of that dialog for the statements that wait: each with its
    /// number, counted from 1, and whether the statement deletes, which is to
    /// say that it starts with `DELETE`.
    pub fn pending_lines(&self) -> (lines: Vec<(String, bool)>)
        ensures
            lines@.len() == self.pending_sql@.len(),
            forall|i: int|
                0 <= i < lines@.len() ==> {
                    &&& (#[trigger] lines@[i]).0@ == decimal((i + 1) as nat) + ". "@
                        + self.pending_sql@[i]@
                    &&& lines@[i].1 == has_prefix(self.pending_sql@[i]@, "DELETE"@)
                },
    {
        let mut lines: Vec<(String, bool)> = Vec::new();
        let mut i: usize = 0;
        while i < self.pending_sql.len()
            invariant
                i <= self.pending_sql@.len(),
                lines@.len() == i,
                forall|j: int|
                    0 <= j < i ==> {
                        &&& (#[trigger] lines@[j]).0@ == decimal((j + 1) as nat) + ". "@
                            + self.pending_sql@[j]@
                        &&& lines@[j].1 == has_prefix(self.pending_sql@[j]@, "DELETE"@)
                    },
            decreases self.pending_sql@.len() - i,
        {
            let sql = chars_of(self.pending_sql[i].as_str());
            let mut out: Vec<char> = Vec::new();
            push_decimal(&mut out, i + 1);
            push_str(&mut out, ". ");
            push_range(&mut out, &sql, 0, sql.len());
            assert(sql@.subrange(0, sql@.len() as int) =~= sql@);
            assert(out@ =~= decimal((i + 1) as nat) + ". "@ + sql@);
            lines.push((string_of(&out), starts_with(&sql, "DELETE")));
            i += 1;
        }
        lines
    }

    /// The number of a row that is still to be added, as the grid shows it:
    /// counted from 1, with a plus sign behind.
    pub fn new_row_label(virtual_row: usize) -> (text: String)
        requires
            virtual_row < usize::MAX,
        ensures
            text@ == decimal((virtual_row + 1) as nat) + "+"@,
    {
        let mut out: Vec<char> = Vec::new();
        push_decimal(&mut out, virtual_row + 1);
        push_str(&mut out, "+");
        assert(out@ =~= decimal((virtual_row + 1) as nat) + "+"@);
        string_of(&out)
    }
}

impl Default for DataGridState {
    fn default() -> (state: Self)
        ensures
            state.is_initial(),
    {
        DataGridState::new()
    }
}

/// One part of the summary of what waits to be saved.
pub open spec fn change_part(mark: Seq<char>, n: usize, what: Seq<char>) -> Seq<Seq<char>> {
    if n == 0 {
        Seq::empty()
    } else {
        seq![mark + decimal(n as nat) + what]
    }
}

/// The summary of what waits to be saved, as the bar above the grid shows it:
/// how many cells were changed, how many rows are to be deleted and how many
/// to be added, each only if there are any, with commas between.
pub open spec fn change_summary(modified: usize, deleted: usize, added: usize) -> Seq<char> {
    crate::import::types::joined(
        change_part("✎ "@, modified, "处修改"@) + change_part("− "@, deleted, "行删除"@)
            + change_part("+ "@, added, "行新增"@),
        ", "@,
    )
}

/// The summary of what waits to be saved.
pub fn change_summary_text(modified: usize, deleted: usize, added: usize) -> (text: String)
    ensures
        text@ == change_summary(modified, deleted, added),
{
    let mut parts: Vec<String> = Vec::new();
    if modified > 0 {
        let mut out = chars_of("✎ ");
        push_decimal(&mut out, modified);
        push_str(&mut out, "处修改");
        parts.push(string_of(&out));
    }
    let ghost first = crate::import::types::texts(parts@);
    assert(first =~= change_part("✎ "@, modified, "处修改"@));
    if deleted > 0 {
        let mut out = chars_of("− ");
        push_decimal(&mut out, deleted);
        push_str(&mut out, "行删除");
        parts.push(string_of(&out));
    }
    let ghost second = crate::import::types::texts(parts@);
    assert(second =~= first + change_part("− "@, deleted, "行删除"@));
    if added > 0 {
        let mut out = chars_of("+ ");
        push_decimal(&mut out, added);
        push_str(&mut out, "行新增");
        parts.push(string_of(&out));
    }
    assert(crate::import::types::texts(parts@) =~= second + change_part(
        "+ "@,
        added,
        "行新增"@,
    ));
    crate::import::types::join(&parts, ", ")
}

} // verus!

//! The sidebar: what it asks its owner to do, which entry of each of its
//! lists is selected, and the lists of triggers and routines that it shows.

use crate::focus::SidebarSection;
use crate::text::{chars_of, clip_ok, clipped, decimal, push_decimal, push_str, string_of, try_clip};
use vstd::prelude::*;

verus! {

/// Where the keyboard goes when it leaves the sidebar.
#[derive(Debug, Clone, Copy, PartialEq, Eq, Structural)]
pub enum SidebarFocusTransfer {
    /// To the data grid.
    ToDataGrid,
}

/// What the sidebar asks its owner to do.
pub struct SidebarActions {
    /// Connect to this connection.
    pub connect: Option<String>,
    /// Disconnect from this connection.
    pub disconnect: Option<String>,
    /// Delete this connection.
    pub delete: Option<String>,
    /// Select this database.
    pub select_database: Option<String>,
    /// Show the columns of this table.
    pub show_table_schema: Option<String>,
    /// Show the rows of this table.
    pub query_table: Option<String>,
    /// Put this trigger definition into the editor.
    pub show_trigger_definition: Option<String>,
    /// Put this routine definition into the editor.
    pub show_routine_definition: Option<String>,
    /// Give the keyboard away.
    pub focus_transfer: Option<SidebarFocusTransfer>,
    /// Move to another part of the sidebar.
    pub section_change: Option<SidebarSection>,
    /// Edit this connection.
    pub edit_connection: Option<String>,
    /// Rename this entry of that part.
    pub rename_item: Option<(SidebarSection, String)>,
    /// Load the list again.
    pub refresh: bool,
    /// A filter condition has changed.
    pub filter_changed: bool,
    /// Add a filter condition.
    pub add_filter: bool,
    /// Drop all filter conditions.
    pub clear_filters: bool,
    /// Switch the connective of this filter condition.
    pub toggle_filter_logic: Option<usize>,
    /// Give the keyboard to the value of this filter condition.
    pub focus_filter_input: Option<usize>,
    /// Give this filter condition the next column, or the one before.
    pub cycle_filter_column: Option<(usize, bool)>,
}

impl SidebarActions {
    /// Whether nothing is asked for.
    pub open spec fn is_idle(&self) -> bool {
        &&& self.connect is None
        &&& self.disconnect is None
        &&& self.delete is None
        &&& self.select_database is None
        &&& self.show_table_schema is None
        &&& self.query_table is None
        &&& self.show_trigger_definition is None
        &&& self.show_routine_definition is None
        &&& self.focus_transfer is None
        &&& self.section_change is None
        &&& self.edit_connection is None
        &&& self.rename_item is None
        &&& !self.refresh
        &&& !self.filter_changed
        &&& !self.add_filter
        &&& !self.clear_filters
        &&& self.toggle_filter_logic is None
        &&& self.focus_filter_input is None
        &&& self.cycle_filter_column is None
    }

    /// Whether a connection, a database or a table is to be acted on.
    pub open spec fn acts(&self) -> bool {
        self.connect is Some || self.disconnect is Some || self.delete is Some
            || self.select_database is Some || self.show_table_schema is Some
            || self.query_table is Some
    }

    /// Whether a connection, a database or a table is to be acted on.
    pub fn has_action(&self) -> (r: bool)
        ensures
            r == self.acts(),
    {
        self.connect.is_some() || self.disconnect.is_some() || self.delete.is_some()
            || self.select_database.is_some() || self.show_table_schema.is_some()
            || self.query_table.is_some()
    }
}

impl Default for SidebarActions {
    fn default() -> (r: Self)
        ensures
            r.is_idle(),
            !r.acts(),
    {
        SidebarActions {
            connect: None,
            disconnect: None,
            delete: None,
            select_database: None,
            show_table_schema: None,
            query_table: None,
            show_trigger_definition: None,
            show_routine_definition: None,
            focus_transfer: None,
            section_change: None,
            edit_connection: None,
            rename_item: None,
            refresh: false,
            filter_changed: false,
            add_filter: false,
            clear_filters: false,
            toggle_filter_logic: None,
            focus_filter_input: None,
            cycle_filter_column: None,
        }
    }
}

/// The index of the selected entry in each list of the sidebar.
#[derive(Debug, Clone, Copy, PartialEq, Eq, Structural)]
pub struct SidebarSelectionState {
    pub connections: usize,
    pub databases: usize,
    pub tables: usize,
    pub triggers: usize,
    pub routines: usize,
    pub filters: usize,
}

impl SidebarSelectionState {
    /// Selects the first entry of every list that belongs to a connection:
    /// for when another connection is chosen.
    pub fn reset_for_connection_change(&mut self)
        ensures
            *final(self) == (SidebarSelectionState {
                databases: 0,
                tables: 0,
                triggers: 0,
                routines: 0,
                ..*old(self)
            }),
    {
        self.databases = 0;
        self.tables = 0;
        self.triggers = 0;
        self.routines = 0;
    }

    /// Selects the first entry of every list that belongs to a database: for
    /// when another database is chosen.
    pub fn reset_for_database_change(&mut self)
        ensures
            *final(self) == (SidebarSelectionState {
                tables: 0,
                triggers: 0,
                routines: 0,
                ..*old(self)
            }),
    {
        self.tables = 0;
        self.triggers = 0;
        self.routines = 0;
    }

    /// Choosing another connection resets all that choosing another database
    /// resets.
    pub proof fn lemma_connection_change_covers_database_change(self)
        ensures
            (SidebarSelectionState { tables: 0, triggers: 0, routines: 0, ..(SidebarSelectionState {
                databases: 0,
                tables: 0,
                triggers: 0,
                routines: 0,
                ..self
            }) }) == (SidebarSelectionState {
                databases: 0,
                tables: 0,
                triggers: 0,
                routines: 0,
                ..self
            }),
    {
    }
}

impl Default for SidebarSelectionState {
    fn default() -> (r: Self)
        ensures
            r == (SidebarSelectionState {
                connections: 0,
                databases: 0,
                tables: 0,
                triggers: 0,
                routines: 0,
                filters: 0,
            }),
    {
        SidebarSelectionState {
            connections: 0,
            databases: 0,
            tables: 0,
            triggers: 0,
            routines: 0,
            filters: 0,
        }
    }
}

/// A trigger of the database.
#[derive(Debug, Clone)]
pub struct TriggerInfo {
    pub name: String,
    pub table_name: String,
    /// `BEFORE`, `AFTER` or `INSTEAD OF`.
    pub timing: String,
    /// `INSERT`, `UPDATE` or `DELETE`.
    pub event: String,
    pub definition: String,
}

/// Whether a routine is a procedure or a function.
#[derive(Debug, Clone, Copy, PartialEq, Eq, Structural)]
pub enum RoutineType {
    Procedure,
    Function,
}

/// A stored procedure or function of the database.
#[derive(Debug, Clone)]
pub struct RoutineInfo {
    pub name: String,
    pub routine_type: RoutineType,
    pub parameters: String,
    pub return_type: Option<String>,
    pub definition: String,
}

/// The panels of the sidebar and what they hold.
pub struct SidebarPanelState {
    /// Whether the connections are shown.
    pub show_connections: bool,
    /// Whether the triggers are shown.
    pub show_triggers: bool,
    /// The triggers.
    pub triggers: Vec<TriggerInfo>,
    /// The index of the selected trigger.
    pub trigger_selected_index: usize,
    /// Whether the triggers are being loaded.
    pub loading_triggers: bool,
    /// Whether the routines are shown.
    pub show_routines: bool,
    /// The routines.
    pub routines: Vec<RoutineInfo>,
    /// The index of the selected routine.
    pub routine_selected_index: usize,
    /// Whether the routines are being loaded.
    pub loading_routines: bool,
    /// Whether the filter conditions are shown.
    pub show_filters: bool,
    /// The selected entry of each list.
    pub selection: SidebarSelectionState,
    /// The divider that is being dragged.
    pub dragging_divider: Option<usize>,
    /// The keys of a command that takes several.
    pub command_buffer: String,
}

impl SidebarPanelState {
    /// Whether `after` is `before` but for the triggers, their selection and
    /// whether they are loading.
    pub open spec fn same_but_triggers(before: SidebarPanelState, after: SidebarPanelState) -> bool {
        &&& after.show_connections == before.show_connections
        &&& after.show_triggers == before.show_triggers
        &&& after.show_routines == before.show_routines
        &&& after.routines == before.routines
        &&& after.routine_selected_index == before.routine_selected_index
        &&& after.loading_routines == before.loading_routines
        &&& after.show_filters == before.show_filters
        &&& after.selection == (SidebarSelectionState { triggers: 0, ..before.selection })
        &&& after.dragging_divider == before.dragging_divider
        &&& after.command_buffer == before.command_buffer
    }

    /// Whether `after` is `before` but for the routines, their selection and
    /// whether they are loading.
    pub open spec fn same_but_routines(before: SidebarPanelState, after: SidebarPanelState) -> bool {
        &&& after.show_connections == before.show_connections
        &&& after.show_triggers == before.show_triggers
        &&& after.triggers == before.triggers
        &&& after.trigger_selected_index == before.trigger_selected_index
        &&& after.loading_triggers == before.loading_triggers
        &&& after.show_routines == before.show_routines
        &&& after.show_filters == before.show_filters
        &&& after.selection == (SidebarSelectionState { routines: 0, ..before.selection })
        &&& after.dragging_divider == before.dragging_divider
        &&& after.command_buffer == before.command_buffer
    }

    /// Empties the list of triggers and selects its start.
    pub fn clear_triggers(&mut self)
        ensures
            final(self).triggers@.len() == 0,
            final(self).trigger_selected_index == 0,
            final(self).loading_triggers == old(self).loading_triggers,
            Self::same_but_triggers(*old(self), *final(self)),
    {
        self.triggers.clear();
        self.trigger_selected_index = 0;
        self.selection.triggers = 0;
    }

    /// Takes the triggers that were loaded and selects the first.
    pub fn set_triggers(&mut self, triggers: Vec<TriggerInfo>)
        ensures
            final(self).triggers == triggers,
            final(self).trigger_selected_index == 0,
            !final(self).loading_triggers,
            Self::same_but_triggers(*old(self), *final(self)),
    {
        self.triggers = triggers;
        self.trigger_selected_index = 0;
        self.selection.triggers = 0;
        self.loading_triggers = false;
    }

    /// Empties the list of routines and selects its start.
    pub fn clear_routines(&mut self)
        ensures
            final(self).routines@.len() == 0,
            final(self).routine_selected_index == 0,
            final(self).loading_routines == old(self).loading_routines,
            Self::same_but_routines(*old(self), *final(self)),
    {
        self.routines.clear();
        self.routine_selected_index = 0;
        self.selection.routines = 0;
    }

    /// Takes the routines that were loaded and selects the first.
    pub fn set_routines(&mut self, routines: Vec<RoutineInfo>)
        ensures
            final(self).routines == routines,
            final(self).routine_selected_index == 0,
            !final(self).loading_routines,
            Self::same_but_routines(*old(self), *final(self)),
    {
        self.routines = routines;
        self.routine_selected_index = 0;
        self.selection.routines = 0;
        self.loading_routines = false;
    }

    /// How many of the first `n` routines are procedures.
    pub open spec fn procedures_among(routines: Seq<RoutineInfo>, n: int) -> nat
        decreases n,
    {
        if n <= 0 || n > routines.len() {
            0
        } else {
            Self::procedures_among(routines, n - 1) + if routines[n - 1].routine_type
                == RoutineType::Procedure {
                1nat
            } else {
                0nat
            }
        }
    }

    /// No more of the first `n` routines are procedures than `n`.
    pub proof fn lemma_procedures_among(routines: Seq<RoutineInfo>, n: int)
        requires
            0 <= n <= routines.len(),
        ensures
            Self::procedures_among(routines, n) <= n,
        decreases n,
    {
        if n > 0 {
            Self::lemma_procedures_among(routines, n - 1);
        }
    }

    /// How many routines are procedures, and how many are functions.
    pub fn routine_counts(&self) -> (r: (usize, usize))
        ensures
            r.0 == Self::procedures_among(self.routines@, self.routines@.len() as int),
            r.0 + r.1 == self.routines@.len(),
    {
        let mut procedures: usize = 0;
        let mut i: usize = 0;
        while i < self.routines.len()
            invariant
                i <= self.routines@.len(),
                procedures <= i,
                procedures == Self::procedures_among(self.routines@, i as int),
            decreases self.routines@.len() - i,
        {
            if self.routines[i].routine_type == RoutineType::Procedure {
                procedures += 1;
            }
            i += 1;
        }
        (procedures, self.routines.len() - procedures)
    }

    /// The heading of the triggers: `触发器`, with their number in brackets
    /// if there are any.
    pub fn trigger_title(&self) -> (title: String)
        ensures
            title@ == counted_title("触发器"@, self.triggers@.len()),
    {
        title_with_count("触发器", self.triggers.len())
    }

    /// The heading of the routines: `过程/函数`, and if there are any, the
    /// number of procedures and of functions as `(3P/2F)`.
    pub fn routine_title(&self) -> (title: String)
        ensures
            title@ == if self.routines@.len() == 0 {
                "过程/函数"@
            } else {
                "过程/函数 ("@ + decimal(
                    Self::procedures_among(self.routines@, self.routines@.len() as int),
                ) + "P/"@ + decimal(
                    (self.routines@.len() - Self::procedures_among(
                        self.routines@,
                        self.routines@.len() as int,
                    )) as nat,
                ) + "F)"@
            },
    {
        if self.routines.len() == 0 {
            return "过程/函数".to_owned();
        }
        let (procedures, functions) = self.routine_counts();
        let mut out = chars_of("过程/函数 (");
        push_decimal(&mut out, procedures);
        push_str(&mut out, "P/");
        push_decimal(&mut out, functions);
        push_str(&mut out, "F)");
        string_of(&out)
    }
}

impl Default for SidebarPanelState {
    fn default() -> (r: Self)
        ensures
            r.show_connections && r.show_triggers && r.show_routines && r.show_filters,
            r.triggers@.len() == 0 && r.routines@.len() == 0,
            r.trigger_selected_index == 0 && r.routine_selected_index == 0,
            !r.loading_triggers && !r.loading_routines,
            r.selection == (SidebarSelectionState {
                connections: 0,
                databases: 0,
                tables: 0,
                triggers: 0,
                routines: 0,
                filters: 0,
            }),
            r.dragging_divider is None,
            r.command_buffer@.len() == 0,
    {
        SidebarPanelState {
            show_connections: true,
            show_triggers: true,
            triggers: Vec::new(),
            trigger_selected_index: 0,
            loading_triggers: false,
            show_routines: true,
            routines: Vec::new(),
            routine_selected_index: 0,
            loading_routines: false,
            show_filters: true,
            selection: SidebarSelectionState::default(),
            dragging_divider: None,
            command_buffer: String::new(),
        }
    }
}

/// A heading with the number of its entries: `name (n)`, or the bare name
/// if there are none.
pub open spec fn counted_title(name: Seq<char>, n: nat) -> Seq<char> {
    if n == 0 {
        name
    } else {
        name + " ("@ + decimal(n) + ")"@
    }
}

/// A heading with the number of its entries.
pub fn title_with_count(name: &str, n: usize) -> (title: String)
    ensures
        title@ == counted_title(name@, n as nat),
{
    if n == 0 {
        return name.to_owned();
    }
    let mut out = chars_of(name);
    push_str(&mut out, " (");
    push_decimal(&mut out, n);
    push_str(&mut out, ")");
    string_of(&out)
}

/// The line under the grid that says how many filter conditions there are:
/// `筛选: 3 条` if all `total` are in force, else `筛选: 2/3 条`.
pub open spec fn filter_status(enabled: usize, total: usize) -> Seq<char> {
    if enabled == total {
        "筛选: "@ + decimal(total as nat) + " 条"@
    } else {
        "筛选: "@ + decimal(enabled as nat) + "/"@ + decimal(total as nat) + " 条"@
    }
}

/// The line under the grid that says how many filter conditions there are.
pub fn filter_status_text(enabled: usize, total: usize) -> (text: String)
    ensures
        text@ == filter_status(enabled, total),
{
    let mut out = chars_of("筛选: ");
    if enabled != total {
        push_decimal(&mut out, enabled);
        push_str(&mut out, "/");
    }
    push_decimal(&mut out, total);
    push_str(&mut out, " 条");
    string_of(&out)
}

/// The panel of the filter conditions.
pub struct FilterPanel;

impl FilterPanel {
    /// The heading of the panel: `筛选`, with the number of conditions in
    /// force in brackets if there are any.
    pub fn title(enabled_count: usize) -> (title: String)
        ensures
            title@ == counted_title("筛选"@, enabled_count as nat),
    {
        title_with_count("筛选", enabled_count)
    }

    /// What the empty panel says: to run a query first if there are no
    /// columns to filter on, else how to add a condition.
    pub fn empty_hint(has_columns: bool) -> (hint: &'static str)
        ensures
            hint@ == if has_columns {
                "点击 + 添加筛选"@
            } else {
                "请先查询数据"@
            },
    {
        if has_columns {
            "点击 + 添加筛选"
        } else {
            "请先查询数据"
        }
    }

    /// The name of a column as the panel shows it: its first six characters,
    /// and `…` if there are more.
    pub fn column_label(column: &str) -> (label: String)
        ensures
            label@ == crate::text::truncated(column@, 6),
    {
        crate::text::truncate_str(column, 6)
    }
}

/// The panel of the triggers.
pub struct TriggerPanel;

impl TriggerPanel {
    /// The line that tells a trigger's time, event and table, as in
    /// `BEFORE INSERT ON orders`.
    pub fn summary(trigger: &TriggerInfo) -> (text: String)
        ensures
            text@ == trigger.timing@ + " "@ + trigger.event@ + " ON "@ + trigger.table_name@,
    {
        let mut out = chars_of(trigger.timing.as_str());
        push_str(&mut out, " ");
        push_str(&mut out, trigger.event.as_str());
        push_str(&mut out, " ON ");
        push_str(&mut out, trigger.table_name.as_str());
        string_of(&out)
    }
}

/// Whether the line about a routine can be made: its parameters are at most
/// 40 bytes long, or a character starts at byte 37.
pub open spec fn routine_summary_ok(routine: RoutineInfo) -> bool {
    clip_ok(routine.parameters@, 40, 37)
}

/// The line that tells a routine's parameters and what it returns, as in
/// `(a INT, b INT) -> INT`. Parameters of more than 40 bytes are cut down to
/// 37, with three dots.
pub open spec fn routine_summary_of(routine: RoutineInfo) -> Seq<char> {
    let head = "("@ + clipped(routine.parameters@, 40, 37) + ")"@;
    match routine.return_type {
        Some(ret) => head + " -> "@ + ret@,
        None => head,
    }
}

/// The panel of the procedures and functions.
pub struct RoutinePanel;

impl RoutinePanel {
    /// The line about a routine, if it can be made.
    pub fn try_summary(routine: &RoutineInfo) -> (text: Option<String>)
        ensures
            text is Some == routine_summary_ok(*routine),
            text is Some ==> text->0@ == routine_summary_of(*routine),
    {
        let shown = match try_clip(routine.parameters.as_str(), 40, 37) {
            Some(s) => s,
            None => {
                return None;
            },
        };
        let mut out = chars_of("(");
        push_str(&mut out, shown.as_str());
        push_str(&mut out, ")");
        match &routine.return_type {
            Some(ret) => {
                push_str(&mut out, " -> ");
                push_str(&mut out, ret.as_str());
            },
            None => {},
        }
        Some(string_of(&out))
    }

    /// The line about a routine.
    pub fn summary(routine: &RoutineInfo) -> (text: String)
        requires
            routine_summary_ok(*routine),
        ensures
            text@ == routine_summary_of(*routine),
    {
        match Self::try_summary(routine) {
            Some(text) => text,
            None => String::new(),
        }
    }

    /// Whether the whole list of parameters is shown when the pointer rests
    /// on the routine: it is where the line shows the list cut down.
    pub fn shows_parameters_on_hover(routine: &RoutineInfo) -> (r: bool)
        ensures
            r == (crate::text::byte_len(routine.parameters@) > 40),
    {
        crate::text::byte_length(routine.parameters.as_str()) > 40
    }
}

} // verus!

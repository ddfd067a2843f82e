//! The window as a whole: which panels and dialogs are shown, which part has
//! the keyboard, and what the keyboard shortcuts do.
//!
//! The functions here decide. They change the switches of the window and
//! hand back a `Request` for what lies outside it: the caller connects,
//! loads, notifies and draws.

use crate::focus::{cycle, cycled, FocusArea, SidebarSection};
use crate::sidebar::SidebarActions;
use crate::sql_editor::SqlEditorActions;
use crate::tab_bar::TabBarFocusTransfer;
use crate::toolbar::ToolbarActions;
use vstd::prelude::*;

verus! {

/// Which panels of the sidebar are shown.
#[derive(Debug, Clone, Copy, PartialEq, Eq, Structural)]
pub struct PanelSwitches {
    pub connections: bool,
    pub filters: bool,
    pub triggers: bool,
    pub routines: bool,
}

impl PanelSwitches {
    /// Whether the panel of `section` is shown. Databases and tables are
    /// shown in the panel of the connections.
    pub open spec fn shows(self, section: SidebarSection) -> bool {
        match section {
            SidebarSection::Connections | SidebarSection::Databases | SidebarSection::Tables =>
                self.connections,
            SidebarSection::Filters => self.filters,
            SidebarSection::Triggers => self.triggers,
            SidebarSection::Routines => self.routines,
        }
    }

    /// The switches with the panel of `section` shown or hidden.
    pub open spec fn with(self, section: SidebarSection, shown: bool) -> PanelSwitches {
        match section {
            SidebarSection::Connections | SidebarSection::Databases | SidebarSection::Tables =>
                PanelSwitches { connections: shown, ..self },
            SidebarSection::Filters => PanelSwitches { filters: shown, ..self },
            SidebarSection::Triggers => PanelSwitches { triggers: shown, ..self },
            SidebarSection::Routines => PanelSwitches { routines: shown, ..self },
        }
    }

    /// Whether the panel of `section` is shown.
    pub fn is_shown(&self, section: SidebarSection) -> (r: bool)
        ensures
            r == self.shows(section),
    {
        match section {
            SidebarSection::Connections | SidebarSection::Databases | SidebarSection::Tables =>
                self.connections,
            SidebarSection::Filters => self.filters,
            SidebarSection::Triggers => self.triggers,
            SidebarSection::Routines => self.routines,
        }
    }

    /// Shows or hides the panel of `section`.
    pub fn set(&mut self, section: SidebarSection, shown: bool)
        ensures
            *final(self) == old(self).with(section, shown),
    {
        match section {
            SidebarSection::Connections | SidebarSection::Databases | SidebarSection::Tables => {
                self.connections = shown;
            },
            SidebarSection::Filters => {
                self.filters = shown;
            },
            SidebarSection::Triggers => {
                self.triggers = shown;
            },
            SidebarSection::Routines => {
                self.routines = shown;
            },
        }
    }
}

/// The switches of the window.
#[derive(Debug, Clone, Copy, PartialEq, Eq, Structural)]
pub struct Workbench {
    pub show_connection_dialog: bool,
    pub show_export_dialog: bool,
    pub show_import_dialog: bool,
    pub show_delete_confirm: bool,
    pub show_help: bool,
    pub show_about: bool,
    pub show_history_panel: bool,
    /// Whether the dialog that makes a table is open.
    pub show_ddl_dialog: bool,
    /// Whether the dialog that makes a database is open.
    pub show_create_db_dialog: bool,
    /// Whether the dialog that makes a user is open.
    pub show_create_user_dialog: bool,
    /// Whether the dialog of the key bindings is open.
    pub show_keybindings_dialog: bool,
    pub show_sql_editor: bool,
    /// Whether the editor is to take the keyboard when it is next drawn.
    pub focus_sql_editor: bool,
    pub show_sidebar: bool,
    pub focus_area: FocusArea,
    pub sidebar_section: SidebarSection,
    pub show_er_diagram: bool,
    /// Whether the change between day and night waits to be carried out.
    pub pending_toggle_dark_mode: bool,
    /// Whether the data grid reacts to keys.
    pub grid_focused: bool,
    /// The panels of the sidebar.
    pub panels: PanelSwitches,
}

/// A key that a shortcut is made of.
#[derive(Debug, Clone, Copy, PartialEq, Eq, Structural)]
pub enum Key {
    F1,
    F5,
    Escape,
    Tab,
    B,
    D,
    E,
    F,
    G,
    H,
    I,
    J,
    K,
    L,
    N,
    R,
    S,
    T,
    U,
    W,
    Num1,
    Num2,
    Num3,
    Num4,
    Num5,
    Num6,
}

/// A key pressed together with modifiers.
#[derive(Debug, Clone, Copy, PartialEq, Eq, Structural)]
pub struct Chord {
    pub key: Key,
    pub ctrl: bool,
    pub shift: bool,
    pub alt: bool,
}

/// What a shortcut needs to know of the world outside the window.
#[derive(Debug, Clone, Copy, PartialEq, Eq, Structural)]
pub struct Surroundings {
    /// A dialog was open when the frame began.
    pub dialog_open: bool,
    /// There is an active connection.
    pub connected: bool,
    /// The active connection is to SQLite.
    pub sqlite: bool,
    /// The active connection has a database selected.
    pub database_selected: bool,
    /// There is a result.
    pub has_result: bool,
    /// The result has a column.
    pub has_column: bool,
}

/// A warning to show.
#[derive(Debug, Clone, Copy, PartialEq, Eq, Structural)]
pub enum Warning {
    /// SQLite has no users to manage.
    NoUsersInSqlite,
    /// There is no connection.
    NotConnected,
}

/// What the window asks its owner to do.
#[derive(Debug, Clone, Copy, PartialEq, Eq, Structural)]
pub enum Request {
    /// Nothing.
    Idle,
    /// Fill the dialog that makes a table.
    OpenCreateTable,
    /// Fill the dialog that makes a database.
    OpenCreateDatabase,
    /// Fill the dialog that makes a user.
    OpenCreateUser,
    /// Fill the dialog of the key bindings.
    OpenKeybindings,
    /// Show a warning.
    Warn(Warning),
    /// Forget what the last export said.
    ResetExportStatus,
    /// Start an import.
    Import,
    /// Load the diagram and say that it is open.
    DiagramOpened,
    /// Say that the diagram is closed.
    DiagramClosed,
    /// Connect again to the active connection.
    Reconnect,
    /// Empty the command line and take the notifications away.
    ClearCommandLine,
    /// Empty the search.
    ClearSearch,
    /// Add a filter condition on the first column.
    AddFilter,
    /// Drop all filter conditions.
    ClearFilters,
    /// Save the changes of the grid.
    Save,
    /// Open the dialog that asks for a row.
    OpenGoto,
    /// Make the next tab active.
    NextTab,
    /// Make the tab before active.
    PrevTab,
    /// Close the active tab.
    CloseActiveTab,
    /// Open a tab.
    NewTab,
    /// Say which part of the sidebar has the keyboard.
    AnnounceSection(SidebarSection),
    /// Open the list of themes.
    OpenThemeSelector,
    /// Change between day and night.
    ToggleDarkMode,
}

/// Where the keyboard goes when it leaves the data grid.
#[derive(Debug, Clone, Copy, PartialEq, Eq, Structural)]
pub enum FocusTransfer {
    /// To the sidebar.
    ToSidebar,
    /// To the editor.
    ToSqlEditor,
    /// To the row of query tabs.
    ToQueryTabs,
}

/// The part of the sidebar that `Ctrl` and a digit key lead to.
pub open spec fn section_of(key: Key) -> Option<SidebarSection> {
    match key {
        Key::Num1 => Some(SidebarSection::Connections),
        Key::Num2 => Some(SidebarSection::Databases),
        Key::Num3 => Some(SidebarSection::Tables),
        Key::Num4 => Some(SidebarSection::Filters),
        Key::Num5 => Some(SidebarSection::Triggers),
        Key::Num6 => Some(SidebarSection::Routines),
        _ => None,
    }
}

/// The part of the sidebar that `Ctrl` and a digit key lead to.
pub fn section_for(key: Key) -> (r: Option<SidebarSection>)
    ensures
        r == section_of(key),
{
    match key {
        Key::Num1 => Some(SidebarSection::Connections),
        Key::Num2 => Some(SidebarSection::Databases),
        Key::Num3 => Some(SidebarSection::Tables),
        Key::Num4 => Some(SidebarSection::Filters),
        Key::Num5 => Some(SidebarSection::Triggers),
        Key::Num6 => Some(SidebarSection::Routines),
        _ => None,
    }
}

/// Whether the shortcut of a part of the sidebar hides the panel when the
/// part has the keyboard already. The parts for databases and tables only
/// take the keyboard.
pub open spec fn hides_on_repeat(section: SidebarSection) -> bool {
    !(section == SidebarSection::Databases || section == SidebarSection::Tables)
}

impl Workbench {
    /// Whether a dialog or a panel that takes all keys is open.
    pub open spec fn modal(self) -> bool {
        self.show_connection_dialog || self.show_export_dialog || self.show_import_dialog
            || self.show_delete_confirm || self.show_help || self.show_about
            || self.show_history_panel || self.show_ddl_dialog || self.show_create_db_dialog
            || self.show_create_user_dialog || self.show_keybindings_dialog
    }

    /// Whether a dialog or a panel that takes all keys is open.
    pub fn has_modal_dialog_open(&self) -> (r: bool)
        ensures
            r == self.modal(),
    {
        self.show_connection_dialog || self.show_export_dialog || self.show_import_dialog
            || self.show_delete_confirm || self.show_help || self.show_about
            || self.show_history_panel || self.show_ddl_dialog || self.show_create_db_dialog
            || self.show_create_user_dialog || self.show_keybindings_dialog
    }

    /// Whether the grid reacts to keys exactly when it has the keyboard.
    pub open spec fn grid_follows_focus(self) -> bool {
        self.grid_focused == (self.focus_area == FocusArea::DataGrid)
    }

    /// The window at its start: no dialog, no sidebar, no editor, the
    /// keyboard in the data grid.
    pub open spec fn initial() -> Workbench {
        Workbench {
            show_connection_dialog: false,
            show_export_dialog: false,
            show_import_dialog: false,
            show_delete_confirm: false,
            show_help: false,
            show_about: false,
            show_history_panel: false,
            show_ddl_dialog: false,
            show_create_db_dialog: false,
            show_create_user_dialog: false,
            show_keybindings_dialog: false,
            show_sql_editor: false,
            focus_sql_editor: false,
            show_sidebar: false,
            focus_area: FocusArea::DataGrid,
            sidebar_section: SidebarSection::Connections,
            show_er_diagram: false,
            pending_toggle_dark_mode: false,
            grid_focused: true,
            panels: PanelSwitches {
                connections: true,
                filters: true,
                triggers: true,
                routines: true,
            },
        }
    }

    /// The window at its start.
    pub fn new() -> (w: Workbench)
        ensures
            w == Self::initial(),
    {
        Workbench {
            show_connection_dialog: false,
            show_export_dialog: false,
            show_import_dialog: false,
            show_delete_confirm: false,
            show_help: false,
            show_about: false,
            show_history_panel: false,
            show_ddl_dialog: false,
            show_create_db_dialog: false,
            show_create_user_dialog: false,
            show_keybindings_dialog: false,
            show_sql_editor: false,
            focus_sql_editor: false,
            show_sidebar: false,
            focus_area: FocusArea::DataGrid,
            sidebar_section: SidebarSection::Connections,
            show_er_diagram: false,
            pending_toggle_dark_mode: false,
            grid_focused: true,
            panels: PanelSwitches {
                connections: true,
                filters: true,
                triggers: true,
                routines: true,
            },
        }
    }

    /// The window with the keyboard in `area`: the grid reacts to keys if the
    /// area is the grid, and the editor takes the keyboard if it is the
    /// editor. A dialog manages the keyboard itself.
    pub open spec fn focused_on(self, area: FocusArea) -> Workbench {
        match area {
            FocusArea::Dialog => Workbench { focus_area: area, ..self },
            FocusArea::DataGrid => Workbench {
                focus_area: area,
                grid_focused: true,
                focus_sql_editor: false,
                ..self
            },
            FocusArea::SqlEditor => Workbench {
                focus_area: area,
                grid_focused: false,
                focus_sql_editor: true,
                ..self
            },
            _ => Workbench { focus_area: area, grid_focused: false, focus_sql_editor: false, ..self },
        }
    }

    /// The window after `Tab`, or `Shift+Tab` if `reverse`: the keyboard
    /// goes one step round the ring of the sidebar, the grid and the editor,
    /// as far as they are shown. With the grid alone nothing changes.
    pub open spec fn after_tab(self, reverse: bool) -> Workbench {
        if !self.show_sidebar && !self.show_sql_editor {
            self
        } else {
            self.focused_on(cycled(self.focus_area, self.show_sidebar, self.show_sql_editor, reverse))
        }
    }

    /// Moves the keyboard one step round the ring.
    pub fn cycle_focus(&mut self, reverse: bool)
        ensures
            *final(self) == old(self).after_tab(reverse),
    {
        if !self.show_sidebar && !self.show_sql_editor {
            return;
        }
        let area = cycle(self.focus_area, self.show_sidebar, self.show_sql_editor, reverse);
        self.focus_on(area);
    }

    /// Gives the keyboard to `area`.
    pub fn focus_on(&mut self, area: FocusArea)
        ensures
            *final(self) == old(self).focused_on(area),
    {
        *self = match area {
            FocusArea::Dialog => Workbench { focus_area: area, ..*self },
            FocusArea::DataGrid => Workbench {
                focus_area: area,
                grid_focused: true,
                focus_sql_editor: false,
                ..*self
            },
            FocusArea::SqlEditor => Workbench {
                focus_area: area,
                grid_focused: false,
                focus_sql_editor: true,
                ..*self
            },
            _ => Workbench {
                focus_area: area,
                grid_focused: false,
                focus_sql_editor: false,
                ..*self
            },
        };
    }

    /// The window after `Ctrl+J`: the editor is shown and takes the
    /// keyboard, or is hidden and gives it to the grid.
    pub open spec fn after_editor_toggle(self) -> Workbench {
        if self.show_sql_editor {
            Workbench {
                show_sql_editor: false,
                focus_area: FocusArea::DataGrid,
                grid_focused: true,
                ..self
            }
        } else {
            Workbench {
                show_sql_editor: true,
                focus_area: FocusArea::SqlEditor,
                focus_sql_editor: true,
                grid_focused: false,
                ..self
            }
        }
    }

    /// The window after `Ctrl+B`: the sidebar is shown and takes the
    /// keyboard, or is hidden and gives the keyboard, if it has it, to the
    /// grid.
    pub open spec fn after_sidebar_toggle(self) -> Workbench {
        if !self.show_sidebar {
            Workbench {
                show_sidebar: true,
                focus_area: FocusArea::Sidebar,
                grid_focused: false,
                ..self
            }
        } else if self.focus_area == FocusArea::Sidebar {
            Workbench {
                show_sidebar: false,
                focus_area: FocusArea::DataGrid,
                grid_focused: true,
                ..self
            }
        } else {
            Workbench { show_sidebar: false, ..self }
        }
    }

    /// The window after `Ctrl` and the digit of `section`: if the sidebar is
    /// shown with the keyboard in that part and its panel open, and the part
    /// is one that hides on repeat, the panel is hidden; else the sidebar is
    /// shown with its panel open and takes the keyboard in that part.
    pub open spec fn after_section(self, section: SidebarSection) -> Workbench {
        if hides_on_repeat(section) && self.show_sidebar && self.sidebar_section == section
            && self.panels.shows(section) {
            Workbench { panels: self.panels.with(section, false), ..self }
        } else {
            Workbench {
                show_sidebar: true,
                focus_area: FocusArea::Sidebar,
                sidebar_section: section,
                grid_focused: false,
                panels: self.panels.with(section, true),
                ..self
            }
        }
    }

    /// The window after `Escape`: the help closes; else the history; else
    /// the diagram.
    pub open spec fn after_escape(self) -> Workbench {
        if self.show_help {
            Workbench { show_help: false, ..self }
        } else if self.show_history_panel {
            Workbench { show_history_panel: false, ..self }
        } else if self.show_er_diagram {
            Workbench { show_er_diagram: false, ..self }
        } else {
            self
        }
    }

    /// The window and the request after a shortcut.
    ///
    /// `F1` shows or hides the help whatever else is open. While a dialog is
    /// open no other shortcut does anything.
    pub open spec fn after_shortcut(self, chord: Chord, around: Surroundings) -> (Workbench, Request) {
        let Chord { key, ctrl, shift, alt } = chord;
        if key == Key::F1 {
            (Workbench { show_help: !self.show_help, ..self }, Request::Idle)
        } else if around.dialog_open {
            (self, Request::Idle)
        } else if key == Key::F5 {
            (
                self,
                if around.connected {
                    Request::Reconnect
                } else {
                    Request::Idle
                },
            )
        } else if key == Key::Escape {
            (self.after_escape(), Request::Idle)
        } else if key == Key::Tab {
            if ctrl {
                (
                    self,
                    if shift {
                        Request::PrevTab
                    } else {
                        Request::NextTab
                    },
                )
            } else if !alt {
                (self.after_tab(shift), Request::Idle)
            } else {
                (self, Request::Idle)
            }
        } else if key == Key::K && alt && !ctrl {
            (Workbench { show_keybindings_dialog: true, ..self }, Request::OpenKeybindings)
        } else if !ctrl {
            (self, Request::Idle)
        } else {
            self.after_ctrl(key, shift, around)
        }
    }

    /// The window and the request after `Ctrl` and a key, with or without
    /// `Shift`, while no dialog is open.
    pub open spec fn after_ctrl(self, key: Key, shift: bool, around: Surroundings) -> (
        Workbench,
        Request,
    ) {
        match key {
            Key::N => if !shift {
                (Workbench { show_connection_dialog: true, ..self }, Request::Idle)
            } else if around.connected && around.database_selected {
                (Workbench { show_ddl_dialog: true, ..self }, Request::OpenCreateTable)
            } else {
                (self, Request::Idle)
            },
            Key::D => if shift {
                (Workbench { show_create_db_dialog: true, ..self }, Request::OpenCreateDatabase)
            } else {
                (Workbench { pending_toggle_dark_mode: true, ..self }, Request::Idle)
            },
            Key::U => if !shift {
                (self, Request::Idle)
            } else if !around.connected {
                (self, Request::Warn(Warning::NotConnected))
            } else if around.sqlite {
                (self, Request::Warn(Warning::NoUsersInSqlite))
            } else {
                (Workbench { show_create_user_dialog: true, ..self }, Request::OpenCreateUser)
            },
            Key::E => if around.has_result {
                (Workbench { show_export_dialog: true, ..self }, Request::ResetExportStatus)
            } else {
                (self, Request::Idle)
            },
            Key::I => (self, Request::Import),
            Key::H => (
                Workbench { show_history_panel: !self.show_history_panel, ..self },
                Request::Idle,
            ),
            Key::R => if shift {
                (self, Request::Idle)
            } else if self.show_er_diagram {
                (Workbench { show_er_diagram: false, ..self }, Request::DiagramClosed)
            } else {
                (Workbench { show_er_diagram: true, ..self }, Request::DiagramOpened)
            },
            Key::L => (self, Request::ClearCommandLine),
            Key::J => (self.after_editor_toggle(), Request::Idle),
            Key::B => (self.after_sidebar_toggle(), Request::Idle),
            Key::K => (self, Request::ClearSearch),
            Key::F => if shift {
                (self, Request::ClearFilters)
            } else if around.has_column {
                (self, Request::AddFilter)
            } else {
                (self, Request::Idle)
            },
            Key::S => (self, Request::Save),
            Key::G => (self, Request::OpenGoto),
            Key::W => (self, Request::CloseActiveTab),
            _ => match section_of(key) {
                Some(section) => if shift {
                    (self, Request::Idle)
                } else {
                    (self.after_section(section), Request::Idle)
                },
                None => (self, Request::Idle),
            },
        }
    }

    /// Carries out `Ctrl` and a key.
    fn ctrl_result(self, key: Key, shift: bool, around: &Surroundings) -> (r: (Workbench, Request))
        ensures
            r == self.after_ctrl(key, shift, *around),
    {
        let now: Workbench = self;
        match key {
            Key::N => if !shift {
                (Workbench { show_connection_dialog: true, ..now }, Request::Idle)
            } else if around.connected && around.database_selected {
                (Workbench { show_ddl_dialog: true, ..now }, Request::OpenCreateTable)
            } else {
                (now, Request::Idle)
            },
            Key::D => if shift {
                (Workbench { show_create_db_dialog: true, ..now }, Request::OpenCreateDatabase)
            } else {
                (Workbench { pending_toggle_dark_mode: true, ..now }, Request::Idle)
            },
            Key::U => if !shift {
                (now, Request::Idle)
            } else if !around.connected {
                (now, Request::Warn(Warning::NotConnected))
            } else if around.sqlite {
                (now, Request::Warn(Warning::NoUsersInSqlite))
            } else {
                (Workbench { show_create_user_dialog: true, ..now }, Request::OpenCreateUser)
            },
            Key::E => if around.has_result {
                (Workbench { show_export_dialog: true, ..now }, Request::ResetExportStatus)
            } else {
                (now, Request::Idle)
            },
            Key::I => (now, Request::Import),
            Key::H => (
                Workbench { show_history_panel: !now.show_history_panel, ..now },
                Request::Idle,
            ),
            Key::R => if shift {
                (now, Request::Idle)
            } else if now.show_er_diagram {
                (Workbench { show_er_diagram: false, ..now }, Request::DiagramClosed)
            } else {
                (Workbench { show_er_diagram: true, ..now }, Request::DiagramOpened)
            },
            Key::L => (now, Request::ClearCommandLine),
            Key::J => (now.editor_toggled(), Request::Idle),
            Key::B => (now.sidebar_toggled(), Request::Idle),
            Key::K => (now, Request::ClearSearch),
            Key::F => if shift {
                (now, Request::ClearFilters)
            } else if around.has_column {
                (now, Request::AddFilter)
            } else {
                (now, Request::Idle)
            },
            Key::S => (now, Request::Save),
            Key::G => (now, Request::OpenGoto),
            Key::W => (now, Request::CloseActiveTab),
            _ => match section_for(key) {
                Some(section) => if shift {
                    (now, Request::Idle)
                } else {
                    (now.at_section(section), Request::Idle)
                },
                None => (now, Request::Idle),
            },
        }
    }

    /// The window with the editor shown or hidden.
    fn editor_toggled(self) -> (w: Workbench)
        ensures
            w == self.after_editor_toggle(),
    {
        if self.show_sql_editor {
            Workbench {
                show_sql_editor: false,
                focus_area: FocusArea::DataGrid,
                grid_focused: true,
                ..self
            }
        } else {
            Workbench {
                show_sql_editor: true,
                focus_area: FocusArea::SqlEditor,
                focus_sql_editor: true,
                grid_focused: false,
                ..self
            }
        }
    }

    /// The window with the sidebar shown or hidden.
    fn sidebar_toggled(self) -> (w: Workbench)
        ensures
            w == self.after_sidebar_toggle(),
    {
        if !self.show_sidebar {
            Workbench {
                show_sidebar: true,
                focus_area: FocusArea::Sidebar,
                grid_focused: false,
                ..self
            }
        } else if self.focus_area == FocusArea::Sidebar {
            Workbench {
                show_sidebar: false,
                focus_area: FocusArea::DataGrid,
                grid_focused: true,
                ..self
            }
        } else {
            Workbench { show_sidebar: false, ..self }
        }
    }

    /// The window with the keyboard in a part of the sidebar.
    fn at_section(self, section: SidebarSection) -> (w: Workbench)
        ensures
            w == self.after_section(section),
    {
        let repeat_hides = !(section == SidebarSection::Databases || section
            == SidebarSection::Tables);
        let mut panels = self.panels;
        if repeat_hides && self.show_sidebar && self.sidebar_section == section
            && self.panels.is_shown(section) {
            panels.set(section, false);
            Workbench { panels, ..self }
        } else {
            panels.set(section, true);
            Workbench {
                show_sidebar: true,
                focus_area: FocusArea::Sidebar,
                sidebar_section: section,
                grid_focused: false,
                panels,
                ..self
            }
        }
    }

    /// Closes what `Escape` closes: the help; else the history; else the
    /// diagram.
    pub fn escape(&mut self)
        ensures
            *final(self) == old(self).after_escape(),
    {
        let now: Workbench = *self;
        *self = if now.show_help {
            Workbench { show_help: false, ..now }
        } else if now.show_history_panel {
            Workbench { show_history_panel: false, ..now }
        } else if now.show_er_diagram {
            Workbench { show_er_diagram: false, ..now }
        } else {
            now
        };
    }

    /// Carries out a keyboard shortcut.
    pub fn handle_keyboard_shortcut(&mut self, chord: &Chord, around: &Surroundings) -> (request:
        Request)
        ensures
            (*final(self), request) == old(self).after_shortcut(*chord, *around),
    {
        let key = chord.key;
        if key == Key::F1 {
            let now: Workbench = *self;
            *self = Workbench { show_help: !now.show_help, ..now };
            Request::Idle
        } else if around.dialog_open {
            Request::Idle
        } else if key == Key::F5 {
            if around.connected {
                Request::Reconnect
            } else {
                Request::Idle
            }
        } else if key == Key::Escape {
            self.escape();
            Request::Idle
        } else if key == Key::Tab {
            if chord.ctrl {
                if chord.shift {
                    Request::PrevTab
                } else {
                    Request::NextTab
                }
            } else {
                if !chord.alt {
                    self.cycle_focus(chord.shift);
                }
                Request::Idle
            }
        } else if key == Key::K && chord.alt && !chord.ctrl {
            let now: Workbench = *self;
            *self = Workbench { show_keybindings_dialog: true, ..now };
            Request::OpenKeybindings
        } else if !chord.ctrl {
            Request::Idle
        } else {
            let now: Workbench = *self;
            let (next, request) = now.ctrl_result(key, chord.shift, around);
            *self = next;
            request
        }
    }

    /// The window and the request after one of the shortcuts that are looked
    /// at before the window is drawn: `Ctrl+Shift+T` asks for the list of
    /// themes whatever else is open; while no dialog is open, `Ctrl+T` asks
    /// for a tab, `Ctrl` and a digit give the keyboard to a part of the
    /// sidebar, and `Ctrl+D` asks for the change between day and night.
    pub open spec fn after_focus_shortcut(self, chord: Chord, around: Surroundings) -> (
        Workbench,
        Request,
    ) {
        if !chord.ctrl {
            (self, Request::Idle)
        } else if chord.key == Key::T && chord.shift {
            (self, Request::OpenThemeSelector)
        } else if around.dialog_open {
            (self, Request::Idle)
        } else if chord.key == Key::T {
            (self, Request::NewTab)
        } else if chord.key == Key::D && !chord.shift {
            (self, Request::ToggleDarkMode)
        } else {
            match section_of(chord.key) {
                Some(section) => (
                    Workbench {
                        show_sidebar: true,
                        focus_area: FocusArea::Sidebar,
                        sidebar_section: section,
                        grid_focused: false,
                        focus_sql_editor: false,
                        ..self
                    },
                    Request::AnnounceSection(section),
                ),
                None => (self, Request::Idle),
            }
        }
    }

    /// Carries out one of the shortcuts that are looked at before the window
    /// is drawn.
    pub fn handle_focus_shortcut(&mut self, chord: &Chord, around: &Surroundings) -> (request:
        Request)
        ensures
            (*final(self), request) == old(self).after_focus_shortcut(*chord, *around),
    {
        if !chord.ctrl {
            Request::Idle
        } else if chord.key == Key::T && chord.shift {
            Request::OpenThemeSelector
        } else if around.dialog_open {
            Request::Idle
        } else if chord.key == Key::T {
            Request::NewTab
        } else if chord.key == Key::D && !chord.shift {
            Request::ToggleDarkMode
        } else {
            match section_for(chord.key) {
                Some(section) => {
                    let now: Workbench = *self;
                    *self = Workbench {
                        show_sidebar: true,
                        focus_area: FocusArea::Sidebar,
                        sidebar_section: section,
                        grid_focused: false,
                        focus_sql_editor: false,
                        ..now
                    };
                    Request::AnnounceSection(section)
                },
                None => Request::Idle,
            }
        }
    }

    /// The window once the keyboard has left the row of tabs.
    pub open spec fn after_tab_bar_transfer(self, transfer: TabBarFocusTransfer) -> Workbench {
        match transfer {
            TabBarFocusTransfer::ToToolbar => Workbench { focus_area: FocusArea::Toolbar, ..self },
            TabBarFocusTransfer::ToDataGrid => Workbench {
                focus_area: FocusArea::DataGrid,
                grid_focused: true,
                ..self
            },
        }
    }

    /// Moves the keyboard where the row of tabs sends it.
    pub fn apply_tab_bar_transfer(&mut self, transfer: TabBarFocusTransfer)
        ensures
            *final(self) == old(self).after_tab_bar_transfer(transfer),
    {
        let now: Workbench = *self;
        *self = match transfer {
            TabBarFocusTransfer::ToToolbar => Workbench { focus_area: FocusArea::Toolbar, ..now },
            TabBarFocusTransfer::ToDataGrid => Workbench {
                focus_area: FocusArea::DataGrid,
                grid_focused: true,
                ..now
            },
        };
    }

    /// The window once the keyboard has left the grid: the sidebar or the
    /// editor is shown if the keyboard goes there.
    pub open spec fn after_grid_transfer(self, transfer: FocusTransfer) -> Workbench {
        match transfer {
            FocusTransfer::ToSidebar => Workbench {
                show_sidebar: true,
                focus_area: FocusArea::Sidebar,
                grid_focused: false,
                ..self
            },
            FocusTransfer::ToSqlEditor => Workbench {
                show_sql_editor: true,
                focus_area: FocusArea::SqlEditor,
                grid_focused: false,
                focus_sql_editor: true,
                ..self
            },
            FocusTransfer::ToQueryTabs => Workbench {
                focus_area: FocusArea::QueryTabs,
                grid_focused: false,
                ..self
            },
        }
    }

    /// Moves the keyboard where the grid sends it.
    pub fn apply_grid_transfer(&mut self, transfer: FocusTransfer)
        ensures
            *final(self) == old(self).after_grid_transfer(transfer),
    {
        let now: Workbench = *self;
        *self = match transfer {
            FocusTransfer::ToSidebar => Workbench {
                show_sidebar: true,
                focus_area: FocusArea::Sidebar,
                grid_focused: false,
                ..now
            },
            FocusTransfer::ToSqlEditor => Workbench {
                show_sql_editor: true,
                focus_area: FocusArea::SqlEditor,
                grid_focused: false,
                focus_sql_editor: true,
                ..now
            },
            FocusTransfer::ToQueryTabs => Workbench {
                focus_area: FocusArea::QueryTabs,
                grid_focused: false,
                ..now
            },
        };
    }

    /// The window once the grid has been clicked: the grid takes the
    /// keyboard unless it has it.
    pub fn grid_clicked(&mut self)
        ensures
            *final(self) == if old(self).focus_area != FocusArea::DataGrid {
                Workbench { focus_area: FocusArea::DataGrid, grid_focused: true, ..*old(self) }
            } else {
                *old(self)
            },
    {
        let now: Workbench = *self;
        if now.focus_area != FocusArea::DataGrid {
            *self = Workbench { focus_area: FocusArea::DataGrid, grid_focused: true, ..now };
        }
    }

    /// The window with the panel of the filter conditions open and the
    /// keyboard in it.
    pub open spec fn with_filter_panel(self) -> Workbench {
        Workbench {
            show_sidebar: true,
            sidebar_section: SidebarSection::Filters,
            focus_area: FocusArea::Sidebar,
            panels: PanelSwitches { filters: true, ..self.panels },
            ..self
        }
    }

    /// Opens the panel of the filter conditions and gives it the keyboard.
    pub fn open_filter_panel(&mut self)
        ensures
            *final(self) == old(self).with_filter_panel(),
    {
        let now: Workbench = *self;
        *self = Workbench {
            show_sidebar: true,
            sidebar_section: SidebarSection::Filters,
            focus_area: FocusArea::Sidebar,
            panels: PanelSwitches { filters: true, ..now.panels },
            ..now
        };
    }

    /// Tells the grid whether it reacts to keys in this frame: it does if it
    /// has the keyboard and no dialog is open.
    pub fn sync_grid_focus(&mut self)
        ensures
            *final(self) == (Workbench {
                grid_focused: old(self).focus_area == FocusArea::DataGrid && !old(self).modal(),
                ..*old(self)
            }),
    {
        let now: Workbench = *self;
        let focused = now.focus_area == FocusArea::DataGrid && !now.has_modal_dialog_open();
        *self = Workbench { grid_focused: focused, ..now };
    }

    /// The window after what the editor asked for: the keyboard goes to the
    /// grid if the editor gives it away; then, if the editor asks for it and
    /// has it not, to the editor.
    pub open spec fn after_editor_actions(self, actions: SqlEditorActions) -> Workbench {
        let mid = if actions.focus_to_grid {
            Workbench { focus_area: FocusArea::DataGrid, grid_focused: true, ..self }
        } else {
            self
        };
        if actions.request_focus && mid.focus_area != FocusArea::SqlEditor {
            Workbench {
                focus_area: FocusArea::SqlEditor,
                grid_focused: false,
                focus_sql_editor: true,
                ..mid
            }
        } else {
            mid
        }
    }

    /// Moves the keyboard as the editor asked.
    pub fn apply_editor_actions(&mut self, actions: &SqlEditorActions)
        ensures
            *final(self) == old(self).after_editor_actions(*actions),
    {
        let now: Workbench = *self;
        let mid: Workbench = if actions.focus_to_grid {
            Workbench { focus_area: FocusArea::DataGrid, grid_focused: true, ..now }
        } else {
            now
        };
        *self = if actions.request_focus && mid.focus_area != FocusArea::SqlEditor {
            Workbench {
                focus_area: FocusArea::SqlEditor,
                grid_focused: false,
                focus_sql_editor: true,
                ..mid
            }
        } else {
            mid
        };
    }

    /// The window after what the sidebar asked for: the keyboard goes to the
    /// grid if the sidebar gives it away; the part of the sidebar changes as
    /// asked, and to the databases on a connect; a delete opens the dialog
    /// that confirms it; a definition to show opens the editor.
    pub open spec fn after_sidebar_actions(self, actions: SidebarActions) -> Workbench {
        let shows_definition = actions.show_trigger_definition is Some
            || actions.show_routine_definition is Some;
        Workbench {
            focus_area: if actions.focus_transfer is Some {
                FocusArea::DataGrid
            } else {
                self.focus_area
            },
            grid_focused: actions.focus_transfer is Some || self.grid_focused,
            sidebar_section: if actions.connect is Some {
                SidebarSection::Databases
            } else {
                match actions.section_change {
                    Some(section) => section,
                    None => self.sidebar_section,
                }
            },
            show_delete_confirm: self.show_delete_confirm || actions.delete is Some,
            show_sql_editor: self.show_sql_editor || shows_definition,
            focus_sql_editor: self.focus_sql_editor || shows_definition,
            ..self
        }
    }

    /// Changes the window as the sidebar asked.
    pub fn apply_sidebar_actions(&mut self, actions: &SidebarActions)
        ensures
            *final(self) == old(self).after_sidebar_actions(*actions),
    {
        let now: Workbench = *self;
        let shows_definition = actions.show_trigger_definition.is_some()
            || actions.show_routine_definition.is_some();
        let leaves = actions.focus_transfer.is_some();
        *self = Workbench {
            focus_area: if leaves {
                FocusArea::DataGrid
            } else {
                now.focus_area
            },
            grid_focused: leaves || now.grid_focused,
            sidebar_section: if actions.connect.is_some() {
                SidebarSection::Databases
            } else {
                match actions.section_change {
                    Some(section) => section,
                    None => now.sidebar_section,
                }
            },
            show_delete_confirm: now.show_delete_confirm || actions.delete.is_some(),
            show_sql_editor: now.show_sql_editor || shows_definition,
            focus_sql_editor: now.focus_sql_editor || shows_definition,
            ..now
        };
    }

    /// The window after what the toolbar asked for, as far as the switches
    /// of the window go: the sidebar, the editor and the diagram are shown
    /// or hidden, and the dialogs and panels asked for are opened.
    pub open spec fn after_toolbar_actions(self, actions: ToolbarActions, around: Surroundings) -> Workbench {
        Workbench {
            show_sidebar: self.show_sidebar != actions.toggle_sidebar,
            show_sql_editor: self.show_sql_editor != actions.toggle_editor,
            show_export_dialog: self.show_export_dialog || actions.export,
            show_ddl_dialog: self.show_ddl_dialog || actions.create_table,
            show_create_db_dialog: self.show_create_db_dialog || actions.create_database,
            show_create_user_dialog: self.show_create_user_dialog || (actions.create_user
                && around.connected && !around.sqlite),
            show_er_diagram: self.show_er_diagram != actions.toggle_er_diagram,
            pending_toggle_dark_mode: false,
            show_history_panel: self.show_history_panel || actions.show_history,
            show_help: self.show_help || actions.show_help,
            show_about: self.show_about || actions.show_about,
            show_keybindings_dialog: self.show_keybindings_dialog || actions.show_keybindings,
            ..self
        }
    }

    /// Whether the change between day and night is to be carried out: the
    /// toolbar asks for it, or a shortcut has.
    pub open spec fn dark_mode_due(self, actions: ToolbarActions) -> bool {
        actions.toggle_dark_mode || self.pending_toggle_dark_mode
    }

    /// Changes the window as the toolbar asked, and says whether the change
    /// between day and night is to be carried out.
    pub fn apply_toolbar_actions(&mut self, actions: &ToolbarActions, around: &Surroundings) -> (dark_mode:
        bool)
        ensures
            *final(self) == old(self).after_toolbar_actions(*actions, *around),
            dark_mode == old(self).dark_mode_due(*actions),
    {
        let now: Workbench = *self;
        let dark_mode = actions.toggle_dark_mode || now.pending_toggle_dark_mode;
        *self = Workbench {
            show_sidebar: now.show_sidebar != actions.toggle_sidebar,
            show_sql_editor: now.show_sql_editor != actions.toggle_editor,
            show_export_dialog: now.show_export_dialog || actions.export,
            show_ddl_dialog: now.show_ddl_dialog || actions.create_table,
            show_create_db_dialog: now.show_create_db_dialog || actions.create_database,
            show_create_user_dialog: now.show_create_user_dialog || (actions.create_user
                && around.connected && !around.sqlite),
            show_er_diagram: now.show_er_diagram != actions.toggle_er_diagram,
            pending_toggle_dark_mode: false,
            show_history_panel: now.show_history_panel || actions.show_history,
            show_help: now.show_help || actions.show_help,
            show_about: now.show_about || actions.show_about,
            show_keybindings_dialog: now.show_keybindings_dialog || actions.show_keybindings,
            ..now
        };
        dark_mode
    }

    /// While a dialog is open, a shortcut asks for nothing and changes
    /// nothing but the help, and only `F1` changes that.
    pub proof fn lemma_dialog_blocks(self, chord: Chord, around: Surroundings)
        requires
            around.dialog_open,
        ensures
            self.after_shortcut(chord, around).1 == Request::Idle,
            self.after_shortcut(chord, around).0 == (Workbench {
                show_help: self.after_shortcut(chord, around).0.show_help,
                ..self
            }),
            chord.key != Key::F1 ==> self.after_shortcut(chord, around).0 == self,
    {
    }

    /// No shortcut parts the grid from the keyboard: if the grid reacts to
    /// keys exactly when it has the keyboard, it does so after the shortcut.
    pub proof fn lemma_grid_follows_focus(self, chord: Chord, around: Surroundings)
        requires
            self.grid_follows_focus(),
        ensures
            self.after_shortcut(chord, around).0.grid_follows_focus(),
    {
        crate::focus::lemma_ring(self.show_sidebar, self.show_sql_editor);
        crate::focus::lemma_cycle(
            self.focus_area,
            self.show_sidebar,
            self.show_sql_editor,
            chord.shift,
        );
        let area = cycled(self.focus_area, self.show_sidebar, self.show_sql_editor, chord.shift);
        if self.show_sidebar || self.show_sql_editor {
            let ring = crate::focus::focus_ring(self.show_sidebar, self.show_sql_editor);
            assert(ring.contains(area));
            let k = choose|k: int| 0 <= k < ring.len() && ring[k] == area;
            assert(ring[k] == area);
            assert(area != FocusArea::Dialog);
        }
    }

    /// No shortcut but those of the dialogs opens a dialog, and a shortcut
    /// that opens one asks the owner to fill it.
    pub proof fn lemma_dialogs_open_by_request(self, chord: Chord, around: Surroundings)
        requires
            !self.modal(),
        ensures
            ({
                let (after, request) = self.after_shortcut(chord, around);
                &&& after.show_ddl_dialog ==> request == Request::OpenCreateTable
                &&& after.show_create_db_dialog ==> request == Request::OpenCreateDatabase
                &&& after.show_create_user_dialog ==> request == Request::OpenCreateUser
                &&& after.show_keybindings_dialog ==> request == Request::OpenKeybindings
                &&& !after.show_import_dialog && !after.show_delete_confirm && !after.show_about
            }),
    {
    }
}

impl Default for Workbench {
    fn default() -> (w: Self)
        ensures
            w == Workbench::initial(),
    {
        Workbench::new()
    }
}

} // verus!

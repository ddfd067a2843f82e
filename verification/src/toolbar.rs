//! The toolbar: its buttons, its two menus and its list of themes, what they
//! ask the owner to do and what the keys do in them.

use vstd::prelude::*;

verus! {

/// A colour theme.
#[derive(Debug, Clone, Copy, PartialEq, Eq, Structural)]
pub enum ThemePreset {
    TokyoNight,
    TokyoNightStorm,
    TokyoNightLight,
    CatppuccinMocha,
    CatppuccinMacchiato,
    CatppuccinFrappe,
    CatppuccinLatte,
    OneDark,
    OneDarkVivid,
    OneLight,
    GruvboxDark,
    GruvboxLight,
    Dracula,
    Nord,
    SolarizedDark,
    SolarizedLight,
    MonokaiPro,
    GithubDark,
    GithubLight,
}

impl ThemePreset {
    /// The themes for the night, in the order of the list.
    pub open spec fn dark() -> Seq<ThemePreset> {
        seq![
            ThemePreset::TokyoNight,
            ThemePreset::TokyoNightStorm,
            ThemePreset::CatppuccinMocha,
            ThemePreset::CatppuccinMacchiato,
            ThemePreset::CatppuccinFrappe,
            ThemePreset::OneDark,
            ThemePreset::OneDarkVivid,
            ThemePreset::GruvboxDark,
            ThemePreset::Dracula,
            ThemePreset::Nord,
            ThemePreset::SolarizedDark,
            ThemePreset::MonokaiPro,
            ThemePreset::GithubDark,
        ]
    }

    /// The themes for the day, in the order of the list.
    pub open spec fn light() -> Seq<ThemePreset> {
        seq![
            ThemePreset::TokyoNightLight,
            ThemePreset::CatppuccinLatte,
            ThemePreset::OneLight,
            ThemePreset::GruvboxLight,
            ThemePreset::SolarizedLight,
            ThemePreset::GithubLight,
        ]
    }

    /// Whether the theme is one for the night.
    pub open spec fn spec_is_dark(&self) -> bool {
        match self {
            ThemePreset::TokyoNightLight
            | ThemePreset::CatppuccinLatte
            | ThemePreset::OneLight
            | ThemePreset::GruvboxLight
            | ThemePreset::SolarizedLight
            | ThemePreset::GithubLight => false,
            _ => true,
        }
    }

    /// Whether the theme is one for the night.
    #[verifier::when_used_as_spec(spec_is_dark)]
    pub fn is_dark(&self) -> (r: bool)
        ensures
            r == self.spec_is_dark(),
    {
        match self {
            ThemePreset::TokyoNightLight
            | ThemePreset::CatppuccinLatte
            | ThemePreset::OneLight
            | ThemePreset::GruvboxLight
            | ThemePreset::SolarizedLight
            | ThemePreset::GithubLight => false,
            _ => true,
        }
    }

    /// The themes for the night, in the order of the list.
    pub fn dark_themes() -> (list: Vec<ThemePreset>)
        ensures
            list@ == Self::dark(),
    {
        let mut list: Vec<ThemePreset> = Vec::new();
        list.push(ThemePreset::TokyoNight);
        list.push(ThemePreset::TokyoNightStorm);
        list.push(ThemePreset::CatppuccinMocha);
        list.push(ThemePreset::CatppuccinMacchiato);
        list.push(ThemePreset::CatppuccinFrappe);
        list.push(ThemePreset::OneDark);
        list.push(ThemePreset::OneDarkVivid);
        list.push(ThemePreset::GruvboxDark);
        list.push(ThemePreset::Dracula);
        list.push(ThemePreset::Nord);
        list.push(ThemePreset::SolarizedDark);
        list.push(ThemePreset::MonokaiPro);
        list.push(ThemePreset::GithubDark);
        assert(list@ =~= Self::dark());
        list
    }

    /// The themes for the day, in the order of the list.
    pub fn light_themes() -> (list: Vec<ThemePreset>)
        ensures
            list@ == Self::light(),
    {
        let mut list: Vec<ThemePreset> = Vec::new();
        list.push(ThemePreset::TokyoNightLight);
        list.push(ThemePreset::CatppuccinLatte);
        list.push(ThemePreset::OneLight);
        list.push(ThemePreset::GruvboxLight);
        list.push(ThemePreset::SolarizedLight);
        list.push(ThemePreset::GithubLight);
        assert(list@ =~= Self::light());
        list
    }

    /// Every theme stands in the list for the night or in the list for the
    /// day, and in the one that `is_dark` says.
    pub proof fn lemma_lists(self)
        ensures
            self.is_dark() <==> Self::dark().contains(self),
            !self.is_dark() <==> Self::light().contains(self),
    {
        let d = Self::dark();
        let l = Self::light();
        assert(d[0] == ThemePreset::TokyoNight && d[1] == ThemePreset::TokyoNightStorm && d[2]
            == ThemePreset::CatppuccinMocha && d[3] == ThemePreset::CatppuccinMacchiato && d[4]
            == ThemePreset::CatppuccinFrappe && d[5] == ThemePreset::OneDark && d[6]
            == ThemePreset::OneDarkVivid && d[7] == ThemePreset::GruvboxDark && d[8]
            == ThemePreset::Dracula && d[9] == ThemePreset::Nord && d[10]
            == ThemePreset::SolarizedDark && d[11] == ThemePreset::MonokaiPro && d[12]
            == ThemePreset::GithubDark);
        assert(l[0] == ThemePreset::TokyoNightLight && l[1] == ThemePreset::CatppuccinLatte && l[2]
            == ThemePreset::OneLight && l[3] == ThemePreset::GruvboxLight && l[4]
            == ThemePreset::SolarizedLight && l[5] == ThemePreset::GithubLight);
        if d.contains(self) {
            let i = choose|i: int| 0 <= i < d.len() && d[i] == self;
            assert(d[i] == self);
        }
        if l.contains(self) {
            let i = choose|i: int| 0 <= i < l.len() && l[i] == self;
            assert(l[i] == self);
        }
    }

    /// The index of `current` in `themes`: of its first occurrence, or 0 if
    /// it is not in the list.
    pub fn index_in(themes: &Vec<ThemePreset>, current: ThemePreset) -> (index: usize)
        ensures
            themes@.contains(current) ==> index < themes@.len() && themes@[index as int] == current
                && forall|j: int| 0 <= j < index ==> themes@[j] != current,
            !themes@.contains(current) ==> index == 0,
    {
        let mut i: usize = 0;
        while i < themes.len()
            invariant
                i <= themes@.len(),
                forall|j: int| 0 <= j < i ==> themes@[j] != current,
            decreases themes@.len() - i,
        {
            if themes[i] == current {
                return i;
            }
            i += 1;
        }
        0
    }
}

/// The state of the list of themes.
#[derive(Debug, Clone, Copy, PartialEq, Eq, Structural)]
pub struct ThemeComboState {
    /// The index of the entry under the marker.
    pub selected_index: usize,
    /// Whether the list is open.
    pub is_open: bool,
}

impl Default for ThemeComboState {
    fn default() -> (r: Self)
        ensures
            r == (ThemeComboState { selected_index: 0, is_open: false }),
    {
        ThemeComboState { selected_index: 0, is_open: false }
    }
}

/// The state of a menu.
#[derive(Debug, Clone, Copy, PartialEq, Eq, Structural)]
pub struct DropdownState {
    /// Whether the menu is open.
    pub is_open: bool,
    /// The index of the entry under the marker.
    pub selected_index: usize,
}

impl Default for DropdownState {
    fn default() -> (r: Self)
        ensures
            r == (DropdownState { is_open: false, selected_index: 0 }),
    {
        DropdownState { is_open: false, selected_index: 0 }
    }
}

/// The keys that a menu or the list of themes reacts to, as pressed in one
/// frame.
#[derive(Debug, Clone, Copy, PartialEq, Eq, Structural)]
pub struct MenuKeys {
    /// `j` or the down arrow.
    pub down: bool,
    /// `k` or the up arrow.
    pub up: bool,
    /// The key that takes the entry under the marker.
    pub confirm: bool,
    /// The key that closes without taking an entry.
    pub cancel: bool,
    /// `g`: to the first entry.
    pub first: bool,
    /// `G`: to the last entry.
    pub last: bool,
}

/// The entry under the marker after the keys of a frame, in a list of `count`
/// entries: `down` moves to the next entry if there is one; `up`, which wins
/// over `down`, to the one before; then `first` and, winning over all, `last`
/// jump to the ends.
pub open spec fn marker_after(keys: MenuKeys, selected: usize, count: usize) -> usize {
    if keys.last {
        if count == 0 {
            0
        } else {
            (count - 1) as usize
        }
    } else if keys.first {
        0
    } else if keys.up && selected > 0 {
        (selected - 1) as usize
    } else if keys.down && selected < usize::MAX && selected + 1 < count {
        (selected + 1) as usize
    } else {
        selected
    }
}

/// The entry under the marker after the keys of a frame.
pub fn move_marker(keys: &MenuKeys, selected: usize, count: usize) -> (r: usize)
    ensures
        r == marker_after(*keys, selected, count),
{
    let mut new_index: Option<usize> = None;
    if keys.down {
        let next: usize = if selected == usize::MAX {
            usize::MAX
        } else {
            selected + 1
        };
        if next < count {
            new_index = Some(next);
        }
    }
    if keys.up && selected > 0 {
        new_index = Some(selected - 1);
    }
    if keys.first {
        new_index = Some(0);
    }
    if keys.last {
        new_index = Some(
            if count == 0 {
                0
            } else {
                count - 1
            },
        );
    }
    match new_index {
        Some(i) => i,
        None => selected,
    }
}

impl DropdownState {
    /// A click on the button of the menu: it opens or closes, with the
    /// marker on the first entry.
    pub fn toggle(&mut self)
        ensures
            *final(self) == (DropdownState { is_open: !old(self).is_open, selected_index: 0 }),
    {
        self.is_open = !self.is_open;
        self.selected_index = 0;
    }

    /// Handles the keys of one frame in the open menu of `count` entries: the
    /// marker moves, and `confirm` or `cancel` close the menu. Returns the
    /// index of the entry taken, if `confirm` was pressed.
    pub fn handle_keys(&mut self, keys: &MenuKeys, count: usize) -> (taken: Option<usize>)
        ensures
            final(self).selected_index == marker_after(*keys, old(self).selected_index, count),
            final(self).is_open == (old(self).is_open && !keys.confirm && !keys.cancel),
            taken == if keys.confirm {
                Some(final(self).selected_index)
            } else {
                None
            },
    {
        self.selected_index = move_marker(keys, self.selected_index, count);
        if keys.confirm || keys.cancel {
            self.is_open = false;
        }
        if keys.confirm {
            Some(self.selected_index)
        } else {
            None
        }
    }
}

impl ThemeComboState {
    /// Brings the state up to date before the list is drawn: the shortcut
    /// opens the list; while the list is closed, the marker follows the theme
    /// in use; a click on the button opens or closes the list.
    pub fn begin_frame(&mut self, force_open: bool, current_index: usize, clicked: bool)
        ensures
            final(self).is_open == ((old(self).is_open || force_open) != clicked),
            final(self).selected_index == if old(self).is_open || force_open {
                old(self).selected_index
            } else {
                current_index
            },
    {
        if force_open {
            self.is_open = true;
        }
        if !self.is_open {
            self.selected_index = current_index;
        }
        if clicked {
            self.is_open = !self.is_open;
        }
    }

    /// Handles the keys of one frame in the open list of `count` themes: the
    /// marker moves, and `confirm` or `cancel` close the list. Returns the
    /// index of the theme taken, if `confirm` was pressed.
    pub fn handle_keys(&mut self, keys: &MenuKeys, count: usize) -> (taken: Option<usize>)
        ensures
            final(self).selected_index == marker_after(*keys, old(self).selected_index, count),
            final(self).is_open == (old(self).is_open && !keys.confirm && !keys.cancel),
            taken == if keys.confirm {
                Some(final(self).selected_index)
            } else {
                None
            },
    {
        self.selected_index = move_marker(keys, self.selected_index, count);
        if keys.confirm || keys.cancel {
            self.is_open = false;
        }
        if keys.confirm {
            Some(self.selected_index)
        } else {
            None
        }
    }
}

/// Where the keyboard goes when it leaves the toolbar.
#[derive(Debug, Clone, Copy, PartialEq, Eq, Structural)]
pub enum ToolbarFocusTransfer {
    /// Down to the row of query tabs.
    ToQueryTabs,
}

/// What the toolbar asks its owner to do.
pub struct ToolbarActions {
    pub refresh_tables: bool,
    pub export: bool,
    pub import: bool,
    pub show_history: bool,
    pub show_help: bool,
    pub toggle_sidebar: bool,
    pub toggle_editor: bool,
    /// Whether the editor is shown.
    pub show_editor: bool,
    pub theme_changed: Option<ThemePreset>,
    pub toggle_dark_mode: bool,
    pub switch_connection: Option<String>,
    pub switch_database: Option<String>,
    pub switch_table: Option<String>,
    /// Open the list of themes.
    pub open_theme_selector: bool,
    pub zoom_in: bool,
    pub zoom_out: bool,
    pub zoom_reset: bool,
    pub create_table: bool,
    pub create_database: bool,
    pub create_user: bool,
    pub toggle_er_diagram: bool,
    pub show_about: bool,
    pub show_keybindings: bool,
    /// Give the keyboard away.
    pub focus_transfer: Option<ToolbarFocusTransfer>,
}

impl ToolbarActions {
    /// Whether nothing is asked for.
    pub open spec fn is_idle(&self) -> bool {
        &&& !self.refresh_tables && !self.export && !self.import && !self.show_history
        &&& !self.show_help && !self.toggle_sidebar && !self.toggle_editor && !self.show_editor
        &&& self.theme_changed is None && !self.toggle_dark_mode
        &&& self.switch_connection is None && self.switch_database is None
        &&& self.switch_table is None && !self.open_theme_selector
        &&& !self.zoom_in && !self.zoom_out && !self.zoom_reset
        &&& !self.create_table && !self.create_database && !self.create_user
        &&& !self.toggle_er_diagram && !self.show_about && !self.show_keybindings
        &&& self.focus_transfer is None
    }

    /// Whether `after` asks for the same as `before` as far as the look of
    /// the window goes: themes, zoom, and the connection, database and table
    /// to switch to.
    pub open spec fn same_look(before: ToolbarActions, after: ToolbarActions) -> bool {
        &&& after.show_editor == before.show_editor
        &&& after.theme_changed == before.theme_changed
        &&& after.toggle_dark_mode == before.toggle_dark_mode
        &&& after.switch_connection == before.switch_connection
        &&& after.switch_database == before.switch_database
        &&& after.switch_table == before.switch_table
        &&& after.open_theme_selector == before.open_theme_selector
        &&& after.zoom_in == before.zoom_in
        &&& after.zoom_out == before.zoom_out
        &&& after.zoom_reset == before.zoom_reset
        &&& after.show_about == before.show_about
    }

    /// Whether `after` asks for the same entries of the two menus as
    /// `before`.
    pub open spec fn same_menus(before: ToolbarActions, after: ToolbarActions) -> bool {
        &&& after.export == before.export
        &&& after.import == before.import
        &&& after.toggle_er_diagram == before.toggle_er_diagram
        &&& after.show_history == before.show_history
        &&& after.create_table == before.create_table
        &&& after.create_database == before.create_database
        &&& after.create_user == before.create_user
    }

    /// Whether `after` asks for the same as `before` as far as the buttons
    /// of the toolbar and the keyboard go.
    pub open spec fn same_buttons(before: ToolbarActions, after: ToolbarActions) -> bool {
        &&& after.toggle_sidebar == before.toggle_sidebar
        &&& after.toggle_editor == before.toggle_editor
        &&& after.refresh_tables == before.refresh_tables
        &&& after.show_keybindings == before.show_keybindings
        &&& after.show_help == before.show_help
        &&& after.focus_transfer == before.focus_transfer
    }
}

impl Default for ToolbarActions {
    fn default() -> (r: Self)
        ensures
            r.is_idle(),
    {
        ToolbarActions {
            refresh_tables: false,
            export: false,
            import: false,
            show_history: false,
            show_help: false,
            toggle_sidebar: false,
            toggle_editor: false,
            show_editor: false,
            theme_changed: None,
            toggle_dark_mode: false,
            switch_connection: None,
            switch_database: None,
            switch_table: None,
            open_theme_selector: false,
            zoom_in: false,
            zoom_out: false,
            zoom_reset: false,
            create_table: false,
            create_database: false,
            create_user: false,
            toggle_er_diagram: false,
            show_about: false,
            show_keybindings: false,
            focus_transfer: None,
        }
    }
}

/// The keys that the toolbar reacts to, as pressed in one frame.
#[derive(Debug, Clone, Copy, PartialEq, Eq, Structural)]
pub struct ToolbarKeys {
    /// `h` or the left arrow.
    pub left: bool,
    /// `l` or the right arrow.
    pub right: bool,
    /// `j` or the down arrow.
    pub down: bool,
    pub enter: bool,
    pub escape: bool,
}

/// How many places the toolbar has for the marker: sidebar, editor, refresh,
/// actions, new, key bindings, help.
pub const TOOLBAR_ITEMS: usize = 7;

/// The toolbar.
pub struct Toolbar;

impl Toolbar {
    /// The place of the marker after the keys of a frame: one to the left on
    /// `left`, then one to the right on `right`, never off the toolbar.
    pub open spec fn index_after(keys: ToolbarKeys, index: usize) -> usize {
        let mid = if keys.left && index > 0 {
            (index - 1) as usize
        } else {
            index
        };
        if keys.right && mid < TOOLBAR_ITEMS - 1 {
            (mid + 1) as usize
        } else {
            mid
        }
    }

    /// Whether `Enter` on the place `index` asks for the thing at place
    /// `place`. The places of the two menus, 3 and 4, ask for nothing.
    pub open spec fn asks(keys: ToolbarKeys, index: usize, place: usize) -> bool {
        keys.enter && index == place
    }

    /// Handles the keys of one frame while the toolbar has the keyboard: `h`
    /// and `l` move the marker, `Enter` asks for the thing under the marker
    /// (the sidebar, the editor, refresh, key bindings, help), and `j` or
    /// `Escape` hand the keyboard to the row of tabs.
    pub fn handle_keyboard(keys: &ToolbarKeys, toolbar_index: &mut usize, actions: &mut ToolbarActions)
        ensures
            *final(toolbar_index) == Self::index_after(*keys, *old(toolbar_index)),
            final(actions).toggle_sidebar == (old(actions).toggle_sidebar || Self::asks(
                *keys,
                *final(toolbar_index),
                0,
            )),
            final(actions).toggle_editor == (old(actions).toggle_editor || Self::asks(
                *keys,
                *final(toolbar_index),
                1,
            )),
            final(actions).refresh_tables == (old(actions).refresh_tables || Self::asks(
                *keys,
                *final(toolbar_index),
                2,
            )),
            final(actions).show_keybindings == (old(actions).show_keybindings || Self::asks(
                *keys,
                *final(toolbar_index),
                5,
            )),
            final(actions).show_help == (old(actions).show_help || Self::asks(
                *keys,
                *final(toolbar_index),
                6,
            )),
            final(actions).focus_transfer == if keys.down || keys.escape {
                Some(ToolbarFocusTransfer::ToQueryTabs)
            } else {
                old(actions).focus_transfer
            },
            ToolbarActions::same_look(*old(actions), *final(actions)),
            ToolbarActions::same_menus(*old(actions), *final(actions)),
    {
        let index = Self::move_index(keys, *toolbar_index);
        *toolbar_index = index;
        if keys.enter {
            Self::activate(index, actions);
        }
        if keys.down || keys.escape {
            actions.focus_transfer = Some(ToolbarFocusTransfer::ToQueryTabs);
        }
    }

    /// The place of the marker after the keys of a frame.
    pub fn move_index(keys: &ToolbarKeys, index: usize) -> (r: usize)
        ensures
            r == Self::index_after(*keys, index),
    {
        let mut index: usize = index;
        if keys.left && index > 0 {
            index -= 1;
        }
        if keys.right && index < TOOLBAR_ITEMS - 1 {
            index += 1;
        }
        index
    }

    /// Asks for the thing at the place `index` of the toolbar.
    pub fn activate(index: usize, actions: &mut ToolbarActions)
        ensures
            final(actions).toggle_sidebar == (old(actions).toggle_sidebar || index == 0),
            final(actions).toggle_editor == (old(actions).toggle_editor || index == 1),
            final(actions).refresh_tables == (old(actions).refresh_tables || index == 2),
            final(actions).show_keybindings == (old(actions).show_keybindings || index == 5),
            final(actions).show_help == (old(actions).show_help || index == 6),
            final(actions).focus_transfer == old(actions).focus_transfer,
            ToolbarActions::same_look(*old(actions), *final(actions)),
            ToolbarActions::same_menus(*old(actions), *final(actions)),
    {
        if index == 0 {
            actions.toggle_sidebar = true;
        } else if index == 1 {
            actions.toggle_editor = true;
        } else if index == 2 {
            actions.refresh_tables = true;
        } else if index == 5 {
            actions.show_keybindings = true;
        } else if index == 6 {
            actions.show_help = true;
        }
    }

    /// The keys keep a marker that is on the toolbar on the toolbar.
    pub proof fn lemma_index_stays(keys: ToolbarKeys, index: usize)
        requires
            index < TOOLBAR_ITEMS,
        ensures
            Self::index_after(keys, index) < TOOLBAR_ITEMS,
    {
    }

    /// Takes the entry `index` of the menu of actions: export (only with a
    /// result to export), import, the diagram, the history.
    pub fn take_action(index: usize, has_result: bool, actions: &mut ToolbarActions)
        ensures
            final(actions).export == (old(actions).export || (index == 0 && has_result)),
            final(actions).import == (old(actions).import || index == 1),
            final(actions).toggle_er_diagram == (old(actions).toggle_er_diagram || index == 2),
            final(actions).show_history == (old(actions).show_history || index == 3),
            final(actions).create_table == old(actions).create_table,
            final(actions).create_database == old(actions).create_database,
            final(actions).create_user == old(actions).create_user,
            ToolbarActions::same_look(*old(actions), *final(actions)),
            ToolbarActions::same_buttons(*old(actions), *final(actions)),
    {
        if index == 0 {
            if has_result {
                actions.export = true;
            }
        } else if index == 1 {
            actions.import = true;
        } else if index == 2 {
            actions.toggle_er_diagram = true;
        } else if index == 3 {
            actions.show_history = true;
        }
    }

    /// Takes the entry `index` of the menu of new things: a table, a
    /// database, a user.
    pub fn take_creation(index: usize, actions: &mut ToolbarActions)
        ensures
            final(actions).create_table == (old(actions).create_table || index == 0),
            final(actions).create_database == (old(actions).create_database || index == 1),
            final(actions).create_user == (old(actions).create_user || index == 2),
            final(actions).export == old(actions).export,
            final(actions).import == old(actions).import,
            final(actions).toggle_er_diagram == old(actions).toggle_er_diagram,
            final(actions).show_history == old(actions).show_history,
            ToolbarActions::same_look(*old(actions), *final(actions)),
            ToolbarActions::same_buttons(*old(actions), *final(actions)),
    {
        if index == 0 {
            actions.create_table = true;
        } else if index == 1 {
            actions.create_database = true;
        } else if index == 2 {
            actions.create_user = true;
        }
    }
}

} // verus!

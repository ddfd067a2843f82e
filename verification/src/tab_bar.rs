//! The row of query tabs: what it asks its owner to do, and what the keys do
//! while it has the keyboard.

use vstd::prelude::*;

verus! {

/// Where the keyboard goes when it leaves the row of tabs.
#[derive(Debug, Clone, Copy, PartialEq, Eq, Structural)]
pub enum TabBarFocusTransfer {
    /// Up to the toolbar.
    ToToolbar,
    /// Down to the data grid.
    ToDataGrid,
}

/// What the row of tabs asks its owner to do.
#[derive(Debug, Clone, Copy, PartialEq, Eq, Structural)]
pub struct TabBarActions {
    /// Open a tab.
    pub new_tab: bool,
    /// Close the tab at this index.
    pub close_tab: Option<usize>,
    /// Make the tab at this index active.
    pub switch_to: Option<usize>,
    /// Close all tabs but the active one.
    pub close_others: bool,
    /// Close the tabs to the right of the active one.
    pub close_right: bool,
    /// Give the keyboard away.
    pub focus_transfer: Option<TabBarFocusTransfer>,
}

impl Default for TabBarActions {
    fn default() -> (r: Self)
        ensures
            r == (TabBarActions {
                new_tab: false,
                close_tab: None,
                switch_to: None,
                close_others: false,
                close_right: false,
                focus_transfer: None,
            }),
    {
        TabBarActions {
            new_tab: false,
            close_tab: None,
            switch_to: None,
            close_others: false,
            close_right: false,
            focus_transfer: None,
        }
    }
}

/// The keys that the row of tabs reacts to, as pressed in one frame.
#[derive(Debug, Clone, Copy, PartialEq, Eq, Structural)]
pub struct TabBarKeys {
    /// `h` or the left arrow.
    pub left: bool,
    /// `l` or the right arrow.
    pub right: bool,
    /// `j` or the down arrow.
    pub down: bool,
    /// `k` or the up arrow.
    pub up: bool,
    pub enter: bool,
    pub d: bool,
    pub escape: bool,
}

/// The row of query tabs.
pub struct QueryTabBar;

impl QueryTabBar {
    /// The tab to switch to: left of the active one on `left`, right of it on
    /// `right` (which wins if both are pressed), never off the row.
    pub open spec fn switch_target(
        keys: TabBarKeys,
        tab_count: usize,
        active_index: usize,
        before: Option<usize>,
    ) -> Option<usize> {
        if keys.right && active_index < tab_count - 1 {
            Some((active_index + 1) as usize)
        } else if keys.left && active_index > 0 {
            Some((active_index - 1) as usize)
        } else {
            before
        }
    }

    /// Where the keyboard goes: `Escape` and `Enter` send it down to the
    /// grid, else `up` to the toolbar, else `down` to the grid.
    pub open spec fn transfer_target(keys: TabBarKeys, before: Option<TabBarFocusTransfer>) -> Option<
        TabBarFocusTransfer,
    > {
        if keys.escape || keys.enter {
            Some(TabBarFocusTransfer::ToDataGrid)
        } else if keys.up {
            Some(TabBarFocusTransfer::ToToolbar)
        } else if keys.down {
            Some(TabBarFocusTransfer::ToDataGrid)
        } else {
            before
        }
    }

    /// What the keys ask for, on top of `actions`: `h` and `l` switch to the
    /// neighbouring tab, `j`, `Enter` and `Escape` hand the keyboard to the
    /// grid, `k` hands it to the toolbar, and `d` closes the active tab
    /// unless it is the only one. Without tabs nothing happens.
    pub open spec fn after_keys(
        keys: TabBarKeys,
        tab_count: usize,
        active_index: usize,
        actions: TabBarActions,
    ) -> TabBarActions {
        if tab_count == 0 {
            actions
        } else {
            TabBarActions {
                switch_to: Self::switch_target(keys, tab_count, active_index, actions.switch_to),
                focus_transfer: Self::transfer_target(keys, actions.focus_transfer),
                close_tab: if keys.d && tab_count > 1 {
                    Some(active_index)
                } else {
                    actions.close_tab
                },
                ..actions
            }
        }
    }

    /// Handles the keys of one frame while the row of tabs has the keyboard.
    pub fn handle_keyboard(
        keys: &TabBarKeys,
        tab_count: usize,
        active_index: usize,
        actions: &mut TabBarActions,
    )
        ensures
            *final(actions) == Self::after_keys(*keys, tab_count, active_index, *old(actions)),
    {
        if tab_count == 0 {
            return;
        }
        if keys.left {
            if active_index > 0 {
                actions.switch_to = Some(active_index - 1);
            }
        }
        if keys.right {
            if active_index < tab_count - 1 {
                actions.switch_to = Some(active_index + 1);
            }
        }
        if keys.down {
            actions.focus_transfer = Some(TabBarFocusTransfer::ToDataGrid);
        }
        if keys.up {
            actions.focus_transfer = Some(TabBarFocusTransfer::ToToolbar);
        }
        if keys.enter {
            actions.focus_transfer = Some(TabBarFocusTransfer::ToDataGrid);
        }
        if keys.d && tab_count > 1 {
            actions.close_tab = Some(active_index);
        }
        if keys.escape {
            actions.focus_transfer = Some(TabBarFocusTransfer::ToDataGrid);
        }
    }

    /// Whatever the keys, the tab to switch to and the tab to close are tabs
    /// of the row, if the active index is one and none was asked for before.
    pub proof fn lemma_targets_in_row(
        keys: TabBarKeys,
        tab_count: usize,
        active_index: usize,
    )
        requires
            active_index < tab_count,
        ensures
            ({
                let none = TabBarActions {
                    new_tab: false,
                    close_tab: None,
                    switch_to: None,
                    close_others: false,
                    close_right: false,
                    focus_transfer: None,
                };
                let after = Self::after_keys(keys, tab_count, active_index, none);
                &&& after.switch_to is Some ==> after.switch_to->0 < tab_count
                &&& after.close_tab is Some ==> after.close_tab->0 < tab_count && tab_count > 1
            }),
    {
    }
}

} // verus!

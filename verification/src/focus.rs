//! Which part of the window has the keyboard.

use vstd::prelude::*;

verus! {

/// The part of the window that receives the keys.
#[derive(Debug, Clone, Copy, PartialEq, Eq, Structural)]
pub enum FocusArea {
    /// The list of connections, databases and tables.
    Sidebar,
    /// The data grid.
    DataGrid,
    /// The SQL editor.
    SqlEditor,
    /// A dialog.
    Dialog,
    /// The toolbar.
    Toolbar,
    /// The row of query tabs.
    QueryTabs,
}

impl Default for FocusArea {
    fn default() -> (r: Self)
        ensures
            r == FocusArea::DataGrid,
    {
        FocusArea::DataGrid
    }
}

/// The part of the sidebar that receives the keys.
#[derive(Debug, Clone, Copy, PartialEq, Eq, Structural)]
pub enum SidebarSection {
    /// The connections.
    Connections,
    /// The databases of the connection.
    Databases,
    /// The tables of the database.
    Tables,
    /// The filter conditions.
    Filters,
    /// The triggers.
    Triggers,
    /// The procedures and functions.
    Routines,
}

impl Default for SidebarSection {
    fn default() -> (r: Self)
        ensures
            r == SidebarSection::Connections,
    {
        SidebarSection::Connections
    }
}

/// The areas that `Tab` walks through, in order: the sidebar if it is shown,
/// the data grid, the editor if it is shown.
pub open spec fn focus_ring(show_sidebar: bool, show_editor: bool) -> Seq<FocusArea> {
    let head = if show_sidebar {
        seq![FocusArea::Sidebar]
    } else {
        Seq::empty()
    };
    let tail = if show_editor {
        seq![FocusArea::SqlEditor]
    } else {
        Seq::empty()
    };
    head + seq![FocusArea::DataGrid] + tail
}

/// The first index at or after `i` at which `area` stands in `ring`, or 0 if
/// it stands nowhere.
pub open spec fn place_from(ring: Seq<FocusArea>, area: FocusArea, i: int) -> int
    decreases ring.len() - i,
{
    if 0 <= i < ring.len() {
        if ring[i] == area {
            i
        } else {
            place_from(ring, area, i + 1)
        }
    } else {
        0
    }
}

/// The place of `area` in `ring`: its index, or 0 if it is not in the ring.
pub open spec fn place_in(ring: Seq<FocusArea>, area: FocusArea) -> int {
    place_from(ring, area, 0)
}

/// The area that has the keyboard after `Tab` (or `Shift+Tab`, if
/// `reverse`): the next (or the one before) in the ring, counted from the
/// place of `current`. A ring of one area changes nothing.
pub open spec fn cycled(
    current: FocusArea,
    show_sidebar: bool,
    show_editor: bool,
    reverse: bool,
) -> FocusArea {
    let ring = focus_ring(show_sidebar, show_editor);
    let at = place_in(ring, current);
    if ring.len() <= 1 {
        current
    } else if reverse {
        ring[if at == 0 {
            ring.len() - 1
        } else {
            at - 1
        }]
    } else {
        ring[(at + 1) % (ring.len() as int)]
    }
}

/// The ring, written out: its length, its areas and the place of each area.
pub proof fn lemma_ring(show_sidebar: bool, show_editor: bool)
    ensures
        ({
            let ring = focus_ring(show_sidebar, show_editor);
            let grid: int = if show_sidebar {
                1
            } else {
                0
            };
            &&& ring.len() == grid + 1 + if show_editor {
                1int
            } else {
                0int
            }
            &&& show_sidebar ==> ring[0] == FocusArea::Sidebar
            &&& ring[grid] == FocusArea::DataGrid
            &&& show_editor ==> ring[grid + 1] == FocusArea::SqlEditor
            &&& place_in(ring, FocusArea::DataGrid) == grid
            &&& place_in(ring, FocusArea::SqlEditor) == if show_editor {
                grid + 1
            } else {
                0
            }
            &&& place_in(ring, FocusArea::Sidebar) == 0
            &&& place_in(ring, FocusArea::Dialog) == 0
            &&& place_in(ring, FocusArea::Toolbar) == 0
            &&& place_in(ring, FocusArea::QueryTabs) == 0
        }),
{
    let ring = focus_ring(show_sidebar, show_editor);
    reveal_with_fuel(place_from, 5);
    if show_sidebar && show_editor {
        assert(ring =~= seq![FocusArea::Sidebar, FocusArea::DataGrid, FocusArea::SqlEditor]);
        assert(ring[0] == FocusArea::Sidebar);
        assert(ring[1] == FocusArea::DataGrid);
        assert(ring[2] == FocusArea::SqlEditor);
    } else if show_sidebar {
        assert(ring =~= seq![FocusArea::Sidebar, FocusArea::DataGrid]);
        assert(ring[0] == FocusArea::Sidebar);
        assert(ring[1] == FocusArea::DataGrid);
    } else if show_editor {
        assert(ring =~= seq![FocusArea::DataGrid, FocusArea::SqlEditor]);
        assert(ring[0] == FocusArea::DataGrid);
        assert(ring[1] == FocusArea::SqlEditor);
    } else {
        assert(ring =~= seq![FocusArea::DataGrid]);
        assert(ring[0] == FocusArea::DataGrid);
    }
}

/// The area that has the keyboard after `Tab` or `Shift+Tab`.
pub fn cycle(current: FocusArea, show_sidebar: bool, show_editor: bool, reverse: bool) -> (next:
    FocusArea)
    ensures
        next == cycled(current, show_sidebar, show_editor, reverse),
{
    proof {
        lemma_ring(show_sidebar, show_editor);
    }
    if show_sidebar && show_editor {
        match current {
            FocusArea::DataGrid => if reverse {
                FocusArea::Sidebar
            } else {
                FocusArea::SqlEditor
            },
            FocusArea::SqlEditor => if reverse {
                FocusArea::DataGrid
            } else {
                FocusArea::Sidebar
            },
            _ => if reverse {
                FocusArea::SqlEditor
            } else {
                FocusArea::DataGrid
            },
        }
    } else if show_sidebar {
        match current {
            FocusArea::DataGrid => FocusArea::Sidebar,
            _ => FocusArea::DataGrid,
        }
    } else if show_editor {
        match current {
            FocusArea::SqlEditor => FocusArea::DataGrid,
            _ => FocusArea::SqlEditor,
        }
    } else {
        current
    }
}

/// After `Tab` the keyboard is in an area of the ring, unless the ring has
/// one area only; and `Shift+Tab` undoes `Tab` for an area of the ring.
pub proof fn lemma_cycle(current: FocusArea, show_sidebar: bool, show_editor: bool, reverse: bool)
    ensures
        focus_ring(show_sidebar, show_editor).len() > 1 ==> focus_ring(
            show_sidebar,
            show_editor,
        ).contains(cycled(current, show_sidebar, show_editor, reverse)),
        focus_ring(show_sidebar, show_editor).contains(current) ==> cycled(
            cycled(current, show_sidebar, show_editor, reverse),
            show_sidebar,
            show_editor,
            !reverse,
        ) == current,
{
    let ring = focus_ring(show_sidebar, show_editor);
    lemma_ring(show_sidebar, show_editor);
    let next = cycled(current, show_sidebar, show_editor, reverse);
    if ring.len() > 1 {
        let at = place_in(ring, current);
        let to = if reverse {
            if at == 0 {
                ring.len() - 1
            } else {
                at - 1
            }
        } else {
            (at + 1) % (ring.len() as int)
        };
        assert(0 <= to < ring.len());
        assert(ring[to] == next);
    }
    if ring.contains(current) {
        let k = choose|k: int| 0 <= k < ring.len() && ring[k] == current;
        assert(ring[k] == current);
    }
}

} // verus!

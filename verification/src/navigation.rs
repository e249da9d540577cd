//! Which tab is active and which row of it is selected, and how the arrow
//! keys and the home key move both.

use crate::menu::{MenuIndex, RESERVED_COUNT};
use vstd::prelude::*;

verus! {

/// The two ways to step through the tabs.
#[derive(Clone, Copy, Debug, PartialEq, Eq)]
pub enum Direction {
    Left,
    Right,
}

/// The active tab and the selected row of the list shown under it.
#[derive(Clone, Copy, Debug, PartialEq, Eq)]
pub struct NavigationState {
    pub active_menu_index: usize,
    pub selected_row: Option<usize>,
}

/// The tab that is active after one step in `direction` from tab `active` of
/// a menu list of `len` entries, whose "Home" tab is at `len - 5`.
///
/// From "Home" either direction leads to the first tab. Elsewhere a step to
/// the right advances only while the next tab is still a menu, so it never
/// enters the reserved labels, and a step to the left stops at the first tab.
pub open spec fn tab_after_scroll(direction: Direction, len: int, active: int) -> int {
    if active == len - RESERVED_COUNT {
        0
    } else if direction == Direction::Right && active < len - RESERVED_COUNT - 1 {
        active + 1
    } else if direction == Direction::Left && active >= 1 {
        active - 1
    } else {
        active
    }
}

/// The row that is selected after a step down from `row` in a list of
/// `count` rows: the next row, or the first one after the last.
pub open spec fn row_after_down(row: int, count: int) -> int {
    if row + 1 >= count {
        0
    } else {
        row + 1
    }
}

/// The row that is selected after a step up from `row` in a list of `count`
/// rows: the row before, or the last one before the first. In an empty list
/// the selection stays on row 0.
pub open spec fn row_after_up(row: int, count: int) -> int {
    if row > 0 {
        row - 1
    } else if count > 0 {
        count - 1
    } else {
        0
    }
}

/// The row that is selected after the command on `row` was deleted: the row
/// before it, and row 0 for row 0.
pub open spec fn row_after_delete(row: int) -> int {
    if row > 0 {
        row - 1
    } else {
        0
    }
}

/// Steps from tab `active_menu_item` in `direction`.
pub fn menu_scroll(
    direction: Direction,
    menu: &MenuIndex,
    active_menu_item: usize,
) -> (next: usize)
    requires
        menu.wf(),
    ensures
        next == tab_after_scroll(direction, menu@.len() as int, active_menu_item as int),
{
    let home: usize = menu.home_index();
    if active_menu_item == home {
        0
    } else {
        match direction {
            Direction::Right => {
                if active_menu_item < home && active_menu_item + 1 < home {
                    active_menu_item + 1
                } else {
                    active_menu_item
                }
            },
            Direction::Left => {
                if active_menu_item >= 1 {
                    active_menu_item - 1
                } else {
                    active_menu_item
                }
            },
        }
    }
}

impl NavigationState {
    /// Whether the active tab is a tab of `menu`.
    pub open spec fn fits(&self, menu: &MenuIndex) -> bool {
        self.active_menu_index < menu@.len()
    }

    /// The state at startup: the first tab, with its first row selected.
    pub fn new() -> (state: NavigationState)
        ensures
            state.active_menu_index == 0,
            state.selected_row == Some(0usize),
    {
        NavigationState { active_menu_index: 0, selected_row: Some(0) }
    }

    /// Whether the active tab is "Home", whose page takes the place of a list
    /// of commands.
    pub fn on_home(&self, menu: &MenuIndex) -> (home: bool)
        requires
            menu.wf(),
        ensures
            home == (self.active_menu_index == menu.spec_home_index()),
    {
        self.active_menu_index == menu.home_index()
    }

    /// Steps to the neighbouring tab in `direction` and selects its first row.
    pub fn scroll(&mut self, direction: Direction, menu: &MenuIndex)
        requires
            menu.wf(),
        ensures
            final(self).active_menu_index == tab_after_scroll(
                direction,
                menu@.len() as int,
                old(self).active_menu_index as int,
            ),
            final(self).selected_row == Some(0usize),
            old(self).fits(menu) ==> final(self).fits(menu),
    {
        self.selected_row = Some(0);
        self.active_menu_index = menu_scroll(direction, menu, self.active_menu_index);
    }

    /// Makes "Home" the active tab. The selected row stays as it is.
    pub fn jump_home(&mut self, menu: &MenuIndex)
        requires
            menu.wf(),
        ensures
            final(self).active_menu_index == menu.spec_home_index(),
            final(self).selected_row == old(self).selected_row,
            final(self).fits(menu),
    {
        self.active_menu_index = menu.home_index();
    }

    /// Moves the selection one row down in a list of `count` rows, wrapping
    /// from the last row to the first. Without a selected row nothing moves.
    pub fn row_down(&mut self, count: usize)
        ensures
            final(self).active_menu_index == old(self).active_menu_index,
            final(self).selected_row == match old(self).selected_row {
                Some(row) => Some(row_after_down(row as int, count as int) as usize),
                None => None,
            },
            old(self).selected_row is Some && count > 0 ==> final(self).selected_row->0 < count,
    {
        if let Some(row) = self.selected_row {
            if count == 0 || row >= count - 1 {
                self.selected_row = Some(0);
            } else {
                self.selected_row = Some(row + 1);
            }
        }
    }

    /// Moves the selection one row up in a list of `count` rows, wrapping
    /// from the first row to the last. Without a selected row nothing moves.
    pub fn row_up(&mut self, count: usize)
        ensures
            final(self).active_menu_index == old(self).active_menu_index,
            final(self).selected_row == match old(self).selected_row {
                Some(row) => Some(row_after_up(row as int, count as int) as usize),
                None => None,
            },
            match old(self).selected_row {
                Some(row) => row < count ==> final(self).selected_row->0 < count,
                None => true,
            },
    {
        if let Some(row) = self.selected_row {
            if row > 0 {
                self.selected_row = Some(row - 1);
            } else if count > 0 {
                self.selected_row = Some(count - 1);
            } else {
                self.selected_row = Some(0);
            }
        }
    }
}

} // verus!

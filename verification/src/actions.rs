//! What the keys do to the stored commands: which rows a tab shows, which
//! command a copy takes, where a paste files the clipboard text, and what a
//! delete removes.

use crate::error::Error;
use crate::menu::MenuIndex;
use crate::navigation::{row_after_delete, row_after_down, row_after_up, NavigationState};
use crate::store::{in_menu, texts, without_first, CommandView, Store};
use vstd::prelude::*;

verus! {

/// The commands that the active tab lists: those filed under its label.
pub open spec fn active_rows(
    s: Seq<CommandView>,
    menu: &MenuIndex,
    nav: NavigationState,
) -> Seq<CommandView> {
    in_menu(s, menu@[nav.active_menu_index as int])
}

/// Whether a row is selected that the active tab really has.
pub open spec fn selection_in_range(
    s: Seq<CommandView>,
    menu: &MenuIndex,
    nav: NavigationState,
) -> bool {
    match nav.selected_row {
        Some(row) => row < active_rows(s, menu, nav).len(),
        None => false,
    }
}

/// The texts of the rows under the active tab, in store order.
pub fn visible_rows(store: &Store, menu: &MenuIndex, nav: &NavigationState) -> (rows: Vec<String>)
    requires
        nav.fits(menu),
    ensures
        rows.deep_view() == texts(active_rows(store@, menu, *nav)),
{
    store.commands_in(menu.name(nav.active_menu_index))
}

/// The text that a copy puts on the clipboard: that of the selected row of
/// the active tab. Fails with `IndexError` exactly if no row is selected or
/// the selected row lies past the end of the list.
pub fn selected_command(
    store: &Store,
    menu: &MenuIndex,
    nav: &NavigationState,
) -> (picked: Result<String, Error>)
    requires
        nav.fits(menu),
    ensures
        match picked {
            Ok(text) => {
                &&& selection_in_range(store@, menu, *nav)
                &&& text@ == active_rows(store@, menu, *nav)[nav.selected_row->0 as int].command
            },
            Err(e) => e == Error::IndexError && !selection_in_range(store@, menu, *nav),
        },
{
    match nav.selected_row {
        Some(row) => match store.command_at(menu.name(nav.active_menu_index), row) {
            Some(text) => Ok(text),
            None => Err(Error::IndexError),
        },
        None => Err(Error::IndexError),
    }
}

/// Files `text` as a new command under the label of the active tab, behind
/// all the commands already stored. The label is taken as it stands, also
/// where the active tab is one of the reserved labels. Tab and row stay.
pub fn paste_into_active(store: &mut Store, menu: &MenuIndex, nav: &NavigationState, text: String)
    requires
        nav.fits(menu),
    ensures
        final(store)@ == old(store)@.push(
            CommandView { command: text@, menu: menu@[nav.active_menu_index as int] },
        ),
{
    let label = menu.name(nav.active_menu_index).to_owned();
    store.append(label, text);
}

/// Deletes the command of the selected row: the first command of the whole
/// store that carries the text of that row goes, and the selection moves one
/// row up, staying on row 0 from row 0. Fails with `IndexError`, and changes
/// nothing, exactly if no row is selected or the selected row lies past the
/// end of the list.
pub fn delete_selected(
    store: &mut Store,
    menu: &MenuIndex,
    nav: &mut NavigationState,
) -> (done: Result<(), Error>)
    requires
        old(nav).fits(menu),
    ensures
        match done {
            Ok(_) => {
                &&& selection_in_range(old(store)@, menu, *old(nav))
                &&& final(store)@ == without_first(
                    old(store)@,
                    active_rows(old(store)@, menu, *old(nav))[old(nav).selected_row->0 as int].command,
                )
                &&& final(nav).active_menu_index == old(nav).active_menu_index
                &&& final(nav).selected_row == Some(
                    row_after_delete(old(nav).selected_row->0 as int) as usize,
                )
            },
            Err(e) => {
                &&& e == Error::IndexError
                &&& !selection_in_range(old(store)@, menu, *old(nav))
                &&& *final(store) == *old(store)
                &&& *final(nav) == *old(nav)
            },
        },
{
    match nav.selected_row {
        Some(row) => match store.command_at(menu.name(nav.active_menu_index), row) {
            Some(text) => {
                store.remove_by_command_text(text.as_str());
                if row > 0 {
                    nav.selected_row = Some(row - 1);
                } else {
                    nav.selected_row = Some(0);
                }
                Ok(())
            },
            None => Err(Error::IndexError),
        },
        None => Err(Error::IndexError),
    }
}

/// Moves the selection one row down under the active tab, wrapping from the
/// last row to the first.
pub fn select_next_row(nav: &mut NavigationState, store: &Store, menu: &MenuIndex)
    requires
        old(nav).fits(menu),
    ensures
        final(nav).active_menu_index == old(nav).active_menu_index,
        final(nav).selected_row == match old(nav).selected_row {
            Some(row) => Some(
                row_after_down(row as int, active_rows(store@, menu, *old(nav)).len() as int) as usize,
            ),
            None => None,
        },
{
    let count: usize = store.count_in(menu.name(nav.active_menu_index));
    nav.row_down(count);
}

/// Moves the selection one row up under the active tab, wrapping from the
/// first row to the last.
pub fn select_previous_row(nav: &mut NavigationState, store: &Store, menu: &MenuIndex)
    requires
        old(nav).fits(menu),
    ensures
        final(nav).active_menu_index == old(nav).active_menu_index,
        final(nav).selected_row == match old(nav).selected_row {
            Some(row) => Some(
                row_after_up(row as int, active_rows(store@, menu, *old(nav)).len() as int) as usize,
            ),
            None => None,
        },
{
    let count: usize = store.count_in(menu.name(nav.active_menu_index));
    nav.row_up(count);
}

} // verus!

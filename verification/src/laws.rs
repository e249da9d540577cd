//! What holds of the operations taken together. Each statement is about the
//! models that the contracts of the operations speak of, so it holds of
//! every run of them.

use crate::menu::{
    first_occurrences, lemma_first_occurrences_contains, lemma_first_occurrences_no_duplicates,
    menu_list, reserved_labels, RESERVED_COUNT,
};
use crate::navigation::{row_after_down, row_after_up, tab_after_scroll, Direction};
use crate::store::{
    filed_under, in_menu, lemma_first_text, menus, texts, without_first, CommandView,
};
use vstd::prelude::*;

verus! {

/// A command that was just appended is the last row of its own menu, and the
/// rows of every other menu are what they were.
pub proof fn law_append_adds_last_row(s: Seq<CommandView>, c: CommandView, menu: Seq<char>)
    ensures
        in_menu(s.push(c), c.menu) == in_menu(s, c.menu).push(c),
        menu != c.menu ==> in_menu(s.push(c), menu) == in_menu(s, menu),
{
    crate::store::lemma_in_menu_push(s, c, c.menu);
    crate::store::lemma_in_menu_push(s, c, menu);
}

/// Where no two commands have the same text, deleting the command of row
/// `row` of `menu` takes exactly that row out of the menu, so the menu has
/// one row less, and the text of the row is found nowhere in the store
/// afterwards.
pub proof fn law_delete_takes_selected_row(s: Seq<CommandView>, menu: Seq<char>, row: int)
    requires
        texts(s).no_duplicates(),
        0 <= row < in_menu(s, menu).len(),
    ensures
        in_menu(without_first(s, in_menu(s, menu)[row].command), menu) == in_menu(s, menu).remove(
            row,
        ),
        in_menu(without_first(s, in_menu(s, menu)[row].command), menu).len() == in_menu(
            s,
            menu,
        ).len() - 1,
        !texts(without_first(s, in_menu(s, menu)[row].command)).contains(
            in_menu(s, menu)[row].command,
        ),
{
    let rows = in_menu(s, menu);
    let gone = rows[row];
    let text = gone.command;
    let keep = filed_under(menu);
    // The row is a command of the store, and the only one with its text.
    assert(rows.contains(gone));
    s.lemma_filter_contains_rev(keep, gone);
    let k = choose|k: int| 0 <= k < s.len() && s[k] == gone;
    assert forall|j: int| 0 <= j < s.len() && j != k implies s[j].command != text by {
        assert(texts(s)[j] == s[j].command);
        assert(texts(s)[k] == text);
    }
    lemma_first_text(s, text, k);
    let after = without_first(s, text);
    assert(after == s.remove(k));
    assert forall|j: int| 0 <= j < after.len() implies texts(after)[j] != text by {
        if j < k {
            assert(after[j] == s[j]);
        } else {
            assert(after[j] == s[j + 1]);
        }
    }
    // The rows before and behind the one that goes stay as they are.
    let before = s.take(k);
    let behind = s.skip(k + 1);
    assert(s =~= before + seq![gone] + behind);
    assert(after =~= before + behind);
    Seq::filter_distributes_over_add(before + seq![gone], behind, keep);
    Seq::filter_distributes_over_add(before, seq![gone], keep);
    Seq::filter_distributes_over_add(before, behind, keep);
    assert(seq![gone].filter(keep) =~= seq![gone]) by {
        reveal(Seq::filter);
        assert(seq![gone].drop_last() =~= Seq::<CommandView>::empty());
    }
    let above = before.filter(keep);
    let below = behind.filter(keep);
    assert(rows == above + seq![gone] + below);
    assert(in_menu(after, menu) == above + below);
    assert forall|j: int| 0 <= j < above.len() implies above[j] != gone by {
        assert(above.contains(above[j]));
        before.lemma_filter_contains_rev(keep, above[j]);
        let m = choose|m: int| 0 <= m < before.len() && before[m] == above[j];
        assert(s[m].command != text);
    }
    assert forall|j: int| 0 <= j < below.len() implies below[j] != gone by {
        assert(below.contains(below[j]));
        behind.lemma_filter_contains_rev(keep, below[j]);
        let m = choose|m: int| 0 <= m < behind.len() && behind[m] == below[j];
        assert(s[m + k + 1].command != text);
    }
    if row < above.len() {
        assert(rows[row] == above[row]);
    } else if row > above.len() {
        assert(rows[row] == below[row - above.len() - 1]);
    }
    assert(above + below =~= rows.remove(row));
}

/// In a list of `count` rows, a step down from the last row leads to the
/// first row and a step up from the first row leads to the last; every other
/// step leads to the neighbouring row. The selection stays within the list.
pub proof fn law_row_selection_wraps(row: int, count: int)
    requires
        0 <= row < count,
    ensures
        row_after_down(count - 1, count) == 0,
        row_after_up(0, count) == count - 1,
        row < count - 1 ==> row_after_down(row, count) == row + 1,
        row > 0 ==> row_after_up(row, count) == row - 1,
        0 <= row_after_down(row, count) < count,
        0 <= row_after_up(row, count) < count,
{
}

/// In a menu list of `len` entries, a step from "Home" in either direction
/// leads to the first tab. From a tab that is not behind "Home", no step
/// leads behind "Home", and a step to the right reaches "Home" from no other
/// tab: from the last menu it stays there.
pub proof fn law_tab_steps(direction: Direction, len: int, active: int)
    requires
        len >= RESERVED_COUNT,
        0 <= active <= len - RESERVED_COUNT,
    ensures
        tab_after_scroll(direction, len, len - RESERVED_COUNT) == 0,
        0 <= tab_after_scroll(direction, len, active) <= len - RESERVED_COUNT,
        active < len - RESERVED_COUNT ==> tab_after_scroll(direction, len, active) < len
            - RESERVED_COUNT,
        active == len - RESERVED_COUNT - 1 ==> tab_after_scroll(Direction::Right, len, active)
            == active,
{
}

/// The menu list of any store ends in the five reserved labels, with "Home"
/// as the first of them; before them stand the menus of the commands, none
/// of them twice and none of them missing.
pub proof fn law_menu_list_shape(s: Seq<CommandView>)
    ensures
        menu_list(s).len() >= RESERVED_COUNT,
        menu_list(s).skip(menu_list(s).len() - RESERVED_COUNT) == reserved_labels(),
        menu_list(s)[menu_list(s).len() - RESERVED_COUNT] == "Home"@,
        menu_list(s).take(menu_list(s).len() - RESERVED_COUNT) == first_occurrences(menus(s)),
        first_occurrences(menus(s)).no_duplicates(),
        forall|i: int|
            0 <= i < s.len() ==> first_occurrences(menus(s)).contains(#[trigger] s[i].menu),
{
    let kept = first_occurrences(menus(s));
    lemma_first_occurrences_no_duplicates(menus(s));
    assert(menu_list(s).skip(menu_list(s).len() - RESERVED_COUNT) =~= reserved_labels());
    assert(menu_list(s).take(menu_list(s).len() - RESERVED_COUNT) =~= kept);
    assert forall|i: int| 0 <= i < s.len() implies kept.contains(#[trigger] s[i].menu) by {
        assert(menus(s)[i] == s[i].menu);
        lemma_first_occurrences_contains(menus(s), s[i].menu);
    }
}

} // verus!

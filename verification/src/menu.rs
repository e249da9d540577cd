//! The tab list: the distinct menus of the stored commands in the order in
//! which they first appear, followed by five fixed labels.

use crate::store::{lemma_index_of_first, menus, CommandView, Store};
use itertools::Itertools;
use vstd::prelude::*;

verus! {

/// How many fixed labels close every menu list.
pub const RESERVED_COUNT: usize = 5;

/// The fixed labels that close every menu list, in their fixed order.
pub open spec fn reserved_labels() -> Seq<Seq<char>> {
    seq!["Home"@, "Copy"@, "Paste"@, "Delete"@, "Quit"@]
}

/// `names` with every repetition of an earlier name left out: a name is kept
/// where it occurs for the first time and nowhere else.
pub open spec fn first_occurrences(names: Seq<Seq<char>>) -> Seq<Seq<char>>
    decreases names.len(),
{
    if names.len() == 0 {
        Seq::empty()
    } else if names.drop_last().contains(names.last()) {
        first_occurrences(names.drop_last())
    } else {
        first_occurrences(names.drop_last()).push(names.last())
    }
}

/// The menu list that belongs to the commands `s`.
pub open spec fn menu_list(s: Seq<CommandView>) -> Seq<Seq<char>> {
    first_occurrences(menus(s)) + reserved_labels()
}

/// A name occurs among the first occurrences exactly if it occurs at all.
pub proof fn lemma_first_occurrences_contains(names: Seq<Seq<char>>, name: Seq<char>)
    ensures
        first_occurrences(names).contains(name) <==> names.contains(name),
    decreases names.len(),
{
    if names.len() > 0 {
        let front = names.drop_last();
        lemma_first_occurrences_contains(front, name);
        lemma_first_occurrences_contains(front, names.last());
        if names.contains(name) {
            let i = choose|i: int| 0 <= i < names.len() && names[i] == name;
            if i < names.len() - 1 {
                assert(front[i] == name);
            }
        }
        if first_occurrences(names).contains(name) {
            let k = choose|k: int|
                0 <= k < first_occurrences(names).len() && first_occurrences(names)[k] == name;
            if k < first_occurrences(front).len() {
                assert(first_occurrences(front)[k] == name);
                let i = choose|i: int| 0 <= i < front.len() && front[i] == name;
                assert(names[i] == name);
            } else {
                assert(names[names.len() - 1] == name);
            }
        }
        if front.contains(name) {
            let k = choose|k: int|
                0 <= k < first_occurrences(front).len() && first_occurrences(front)[k] == name;
            assert(first_occurrences(names)[k] == name);
        } else if names.contains(name) {
            assert(names.last() == name);
            assert(first_occurrences(names).last() == name);
        }
    }
}

/// No name occurs twice among the first occurrences.
pub proof fn lemma_first_occurrences_no_duplicates(names: Seq<Seq<char>>)
    ensures
        first_occurrences(names).no_duplicates(),
    decreases names.len(),
{
    if names.len() > 0 {
        let front = names.drop_last();
        lemma_first_occurrences_no_duplicates(front);
        lemma_first_occurrences_contains(front, names.last());
    }
}

/// The first occurrences stand in the order in which the names are first
/// seen: of two kept names, the one kept earlier also occurs earlier.
pub proof fn lemma_first_occurrences_keep_order(names: Seq<Seq<char>>, i: int, j: int)
    requires
        0 <= i < j < first_occurrences(names).len(),
    ensures
        names.index_of_first(first_occurrences(names)[i]) is Some,
        names.index_of_first(first_occurrences(names)[j]) is Some,
        names.index_of_first(first_occurrences(names)[i])->0 < names.index_of_first(
            first_occurrences(names)[j],
        )->0,
    decreases names.len(),
{
    let kept = first_occurrences(names);
    let front = names.drop_last();
    lemma_first_occurrences_contains(front, names.last());
    lemma_widen_index_of_first(names, kept[i]);
    lemma_widen_index_of_first(names, kept[j]);
    lemma_first_occurrences_contains(front, kept[i]);
    lemma_first_occurrences_contains(front, kept[j]);
    if j < first_occurrences(front).len() {
        lemma_first_occurrences_keep_order(front, i, j);
    } else {
        assert(kept[j] == names.last());
        assert(first_occurrences(front).contains(kept[i])) by {
            assert(first_occurrences(front)[i] == kept[i]);
        }
        front.index_of_first_ensures(kept[i]);
    }
}

/// Where a name first occurs does not change when one more name is put
/// behind the others; a name that is new then first occurs at the end.
proof fn lemma_widen_index_of_first(names: Seq<Seq<char>>, name: Seq<char>)
    requires
        names.len() > 0,
    ensures
        names.index_of_first(name) == if names.drop_last().contains(name) {
            names.drop_last().index_of_first(name)
        } else if names.last() == name {
            Some(names.len() - 1)
        } else {
            None
        },
{
    let front = names.drop_last();
    front.index_of_first_ensures(name);
    match front.index_of_first(name) {
        Some(p) => {
            assert forall|k: int| 0 <= k < p implies names[k] != name by {
                assert(front[k] != name);
            }
            assert(names[p] == front[p]);
            lemma_index_of_first(names, name, p);
        },
        None => {
            assert forall|k: int| 0 <= k < names.len() - 1 implies names[k] != name by {
                if names[k] == name {
                    assert(front[k] == name);
                }
            }
            if names.last() == name {
                lemma_index_of_first(names, name, names.len() - 1);
            } else {
                lemma_index_of_first(names, name, names.len() as int);
            }
        },
    }
}

/// Drops the repeated names. This is `Itertools::unique` of the `itertools`
/// crate, applied to the names in order and collected again. The contract
/// restates that adaptor's documented behaviour: the items come out in the
/// order in which they went in, and of several equal items the first one is
/// the one that stays. Two names are equal when they hold the same characters.
#[verifier::external_body]
fn unique_names(names: Vec<String>) -> (kept: Vec<String>)
    ensures
        kept.deep_view() == first_occurrences(names.deep_view()),
{
    names.into_iter().unique().collect()
}

/// The list of tabs. The last five entries are always the reserved labels,
/// so "Home" sits at `len() - 5`; the entries before them are the menus of
/// the commands, each once.
#[derive(Clone, Debug, PartialEq, Eq)]
pub struct MenuIndex {
    names: Vec<String>,
}

impl View for MenuIndex {
    type V = Seq<Seq<char>>;

    closed spec fn view(&self) -> Seq<Seq<char>> {
        self.names.deep_view()
    }
}

impl MenuIndex {
    /// The invariant of a menu list.
    pub open spec fn wf(&self) -> bool {
        &&& self@.len() >= RESERVED_COUNT
        &&& self@.skip(self@.len() - RESERVED_COUNT) == reserved_labels()
        &&& self@.take(self@.len() - RESERVED_COUNT).no_duplicates()
    }

    /// The position of the "Home" tab.
    pub open spec fn spec_home_index(&self) -> int {
        self@.len() - RESERVED_COUNT
    }

    /// Derives the menu list from the stored commands.
    pub fn build(store: &Store) -> (index: MenuIndex)
        ensures
            index.wf(),
            index@ == menu_list(store@),
    {
        let mut names = unique_names(store.menus());
        let ghost dynamic = names.deep_view();
        names.push("Home".to_owned());
        names.push("Copy".to_owned());
        names.push("Paste".to_owned());
        names.push("Delete".to_owned());
        names.push("Quit".to_owned());
        proof {
            lemma_first_occurrences_no_duplicates(menus(store@));
            assert(names.deep_view() =~= dynamic + reserved_labels());
            assert(names.deep_view().skip(names.deep_view().len() - RESERVED_COUNT)
                =~= reserved_labels());
            assert(names.deep_view().take(names.deep_view().len() - RESERVED_COUNT) =~= dynamic);
        }
        MenuIndex { names }
    }

    /// The number of tabs, reserved labels included.
    pub fn len(&self) -> (n: usize)
        ensures
            n == self@.len(),
    {
        self.names.len()
    }

    /// The position of the "Home" tab: the first of the reserved labels.
    pub fn home_index(&self) -> (home: usize)
        requires
            self.wf(),
        ensures
            home == self.spec_home_index(),
    {
        self.names.len() - RESERVED_COUNT
    }

    /// The label of tab `i`.
    pub fn name(&self, i: usize) -> (label: &str)
        requires
            i < self@.len(),
        ensures
            label@ == self@[i as int],
    {
        self.names[i].as_str()
    }

    /// Whether tab `i` is one of the reserved labels rather than a menu of
    /// the stored commands.
    pub fn is_reserved(&self, i: usize) -> (reserved: bool)
        requires
            self.wf(),
        ensures
            reserved == (i >= self.spec_home_index()),
    {
        i >= self.names.len() - RESERVED_COUNT
    }

    /// All the labels, in tab order.
    pub fn names(&self) -> (labels: Vec<String>)
        ensures
            labels.deep_view() == self@,
    {
        let mut labels: Vec<String> = Vec::new();
        let mut i: usize = 0;
        while i < self.names.len()
            invariant
                i <= self.names.len(),
                labels.deep_view() == self.names.deep_view().take(i as int),
            decreases self.names.len() - i,
        {
            let ghost before = labels.deep_view();
            labels.push(self.names[i].clone());
            proof {
                assert(labels.deep_view() =~= before.push(self.names.deep_view()[i as int]));
                assert(self.names.deep_view().take(i + 1) =~= before.push(
                    self.names.deep_view()[i as int],
                ));
            }
            i += 1;
        }
        assert(self.names.deep_view().take(i as int) =~= self.names.deep_view());
        labels
    }
}

} // verus!

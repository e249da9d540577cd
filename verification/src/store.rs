//! The ordered collection of saved commands and the operations that the
//! clipboard manager performs on it.

use vstd::prelude::*;

verus! {

/// One saved clipboard snippet and the menu it is filed under.
#[derive(Clone, Debug, PartialEq, Eq)]
pub struct Command {
    pub command: String,
    pub menu: String,
}

/// What a [`Command`] stands for: the characters of its text and of its menu.
pub struct CommandView {
    pub command: Seq<char>,
    pub menu: Seq<char>,
}

impl View for Command {
    type V = CommandView;

    open spec fn view(&self) -> CommandView {
        CommandView { command: self.command@, menu: self.menu@ }
    }
}

impl DeepView for Command {
    type V = CommandView;

    open spec fn deep_view(&self) -> CommandView {
        self@
    }
}

/// The saved commands, in the order in which they were added.
#[derive(Clone, Debug, PartialEq, Eq)]
pub struct Store {
    pub commands: Vec<Command>,
}

impl View for Store {
    type V = Seq<CommandView>;

    open spec fn view(&self) -> Seq<CommandView> {
        self.commands.deep_view()
    }
}

/// The predicate "is filed under `menu`".
pub open spec fn filed_under(menu: Seq<char>) -> spec_fn(CommandView) -> bool {
    |c: CommandView| c.menu == menu
}

/// The commands of `s` that are filed under `menu`, in store order. These are
/// the rows that the tab of that menu shows.
pub open spec fn in_menu(s: Seq<CommandView>, menu: Seq<char>) -> Seq<CommandView> {
    s.filter(filed_under(menu))
}

/// The text of each command of `s`, in order.
pub open spec fn texts(s: Seq<CommandView>) -> Seq<Seq<char>> {
    s.map_values(|c: CommandView| c.command)
}

/// The menu of each command of `s`, in order.
pub open spec fn menus(s: Seq<CommandView>) -> Seq<Seq<char>> {
    s.map_values(|c: CommandView| c.menu)
}

/// `s` without the first command whose text is `text`; `s` itself when no
/// command has that text. The menu of the command plays no part.
pub open spec fn without_first(s: Seq<CommandView>, text: Seq<char>) -> Seq<CommandView> {
    match texts(s).index_of_first(text) {
        Some(i) => s.remove(i),
        None => s,
    }
}

/// Filtering a sequence that grew by one element either keeps or drops that
/// element and leaves the rest as it was.
pub proof fn lemma_in_menu_push(s: Seq<CommandView>, c: CommandView, menu: Seq<char>)
    ensures
        in_menu(s.push(c), menu) == if c.menu == menu {
            in_menu(s, menu).push(c)
        } else {
            in_menu(s, menu)
        },
{
    reveal(Seq::filter);
    assert(s.push(c).drop_last() =~= s);
}

/// Where `x` stands at position `p` of `s` and nowhere before it, `p` is the
/// position at which `x` first occurs. Where `p` is the length of `s` and `x`
/// stands nowhere in it, `x` has no first occurrence.
pub proof fn lemma_index_of_first<A>(s: Seq<A>, x: A, p: int)
    requires
        0 <= p <= s.len(),
        forall|j: int| 0 <= j < p ==> s[j] != x,
        p < s.len() ==> s[p] == x,
    ensures
        s.index_of_first(x) == if p < s.len() {
            Some(p)
        } else {
            None
        },
{
    s.index_of_first_ensures(x);
    match s.index_of_first(x) {
        Some(k) => {
            if k < p {
                assert(s[k] != x);
            }
        },
        None => {
            if p < s.len() {
                assert(s.contains(x));
            }
        },
    }
}

/// Where the command at position `i` is the first of `s` with the text
/// `text`, `i` is the position at which `text` first occurs among the texts
/// of `s`. Where `i` is the length of `s` and no command has the text,
/// `text` has no first occurrence.
pub proof fn lemma_first_text(s: Seq<CommandView>, text: Seq<char>, i: int)
    requires
        0 <= i <= s.len(),
        forall|j: int| 0 <= j < i ==> s[j].command != text,
        i < s.len() ==> s[i].command == text,
    ensures
        texts(s).index_of_first(text) == if i < s.len() {
            Some(i)
        } else {
            None
        },
{
    assert forall|j: int| 0 <= j < i implies texts(s)[j] != text by {
        assert(s[j].command != text);
    }
    lemma_index_of_first(texts(s), text, i);
}

impl Store {
    /// A store without commands.
    pub fn new() -> (store: Store)
        ensures
            store@ == Seq::<CommandView>::empty(),
    {
        Store { commands: Vec::new() }
    }

    /// The number of stored commands.
    pub fn len(&self) -> (n: usize)
        ensures
            n == self@.len(),
    {
        self.commands.len()
    }

    /// Adds `command` under `menu` after all the commands already stored.
    pub fn append(&mut self, menu: String, command: String)
        ensures
            final(self)@ == old(self)@.push(CommandView { command: command@, menu: menu@ }),
    {
        self.commands.push(Command { command, menu });
    }

    /// The menu of every stored command, in store order, repetitions included.
    pub fn menus(&self) -> (names: Vec<String>)
        ensures
            names.deep_view() == menus(self@),
    {
        let mut names: Vec<String> = Vec::new();
        let mut i: usize = 0;
        while i < self.commands.len()
            invariant
                i <= self.commands.len(),
                names.deep_view() == menus(self@.take(i as int)),
            decreases self.commands.len() - i,
        {
            let ghost before = names.deep_view();
            names.push(self.commands[i].menu.clone());
            proof {
                assert(names.deep_view() =~= before.push(self@[i as int].menu));
                assert(self@.take(i + 1) =~= self@.take(i as int).push(self@[i as int]));
                assert(menus(self@.take(i + 1)) =~= menus(self@.take(i as int)).push(
                    self@[i as int].menu,
                ));
            }
            i += 1;
        }
        assert(self@.take(i as int) =~= self@);
        names
    }

    /// The texts of the commands filed under `menu`, in store order.
    pub fn commands_in(&self, menu: &str) -> (rows: Vec<String>)
        ensures
            rows.deep_view() == texts(in_menu(self@, menu@)),
    {
        let wanted = menu.to_owned();
        let mut rows: Vec<String> = Vec::new();
        let mut i: usize = 0;
        while i < self.commands.len()
            invariant
                i <= self.commands.len(),
                wanted@ == menu@,
                rows.deep_view() == texts(in_menu(self@.take(i as int), menu@)),
            decreases self.commands.len() - i,
        {
            proof {
                lemma_in_menu_push(self@.take(i as int), self@[i as int], menu@);
                assert(self@.take(i + 1) =~= self@.take(i as int).push(self@[i as int]));
            }
            if self.commands[i].menu == wanted {
                let ghost before = rows.deep_view();
                rows.push(self.commands[i].command.clone());
                proof {
                    assert(rows.deep_view() =~= before.push(self@[i as int].command));
                    let shown = in_menu(self@.take(i as int), menu@);
                    assert(texts(shown.push(self@[i as int])) =~= texts(shown).push(
                        self@[i as int].command,
                    ));
                }
            }
            i += 1;
        }
        assert(self@.take(i as int) =~= self@);
        rows
    }

    /// How many commands are filed under `menu`.
    pub fn count_in(&self, menu: &str) -> (n: usize)
        ensures
            n == in_menu(self@, menu@).len(),
    {
        let rows = self.commands_in(menu);
        assert(rows.deep_view().len() == rows@.len());
        rows.len()
    }

    /// The text of row `row` of `menu`, where there is such a row.
    pub fn command_at(&self, menu: &str, row: usize) -> (found: Option<String>)
        ensures
            match found {
                Some(text) => {
                    &&& row < in_menu(self@, menu@).len()
                    &&& text@ == in_menu(self@, menu@)[row as int].command
                },
                None => row >= in_menu(self@, menu@).len(),
            },
    {
        let rows = self.commands_in(menu);
        assert(rows.deep_view().len() == rows@.len());
        if row < rows.len() {
            assert(rows.deep_view()[row as int] == rows@[row as int]@);
            Some(rows[row].clone())
        } else {
            None
        }
    }

    /// Removes the first command whose text is `text`, whatever menu it is
    /// filed under, and returns the position it had. Without such a command
    /// the store stays as it is.
    pub fn remove_by_command_text(&mut self, text: &str) -> (removed: Option<usize>)
        ensures
            final(self)@ == without_first(old(self)@, text@),
            match removed {
                Some(i) => texts(old(self)@).index_of_first(text@) == Some(i as int),
                None => texts(old(self)@).index_of_first(text@) is None,
            },
    {
        let wanted = text.to_owned();
        let n: usize = self.commands.len();
        let mut i: usize = 0;
        let mut hit = false;
        while i < n && !hit
            invariant
                n == self.commands.len(),
                i <= n,
                wanted@ == text@,
                *self == *old(self),
                hit ==> i < n && self@[i as int].command == text@,
                forall|j: int| 0 <= j < i ==> self@[j].command != text@,
            decreases n - i + if hit { 0int } else { 1int },
        {
            if self.commands[i].command == wanted {
                hit = true;
            } else {
                i += 1;
            }
        }
        proof {
            lemma_first_text(self@, text@, i as int);
        }
        if hit {
            let ghost before = self@;
            self.commands.remove(i);
            assert(self@ =~= before.remove(i as int));
            Some(i)
        } else {
            None
        }
    }
}

} // verus!

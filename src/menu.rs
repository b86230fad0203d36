use vstd::prelude::*;

verus! {

/// The most entries a catalog can have: the selection is held in a `u8`.
pub const MAX_GAMES: usize = 256;

/// The selection after moving up from `s`: one less, and no lower than the top.
pub open spec fn up_selection(s: nat) -> nat {
    if s > 0 {
        (s - 1) as nat
    } else {
        s
    }
}

/// The selection after moving down from `s` in a catalog of `len` entries:
/// one more, and no further than the last entry.
pub open spec fn down_selection(s: nat, len: nat) -> nat {
    if s + 1 < len {
        s + 1
    } else {
        s
    }
}

/// The games menu: the catalog of games to choose from, the selected entry,
/// and whether the application is still running.
pub struct App {
    /// Whether the application is running.
    running: bool,
    /// The index of the selected game.
    state: u8,
    /// The games available for selection.
    games: Vec<&'static str>,
}

impl App {
    /// Whether the application is running.
    pub closed spec fn is_running(self) -> bool {
        self.running
    }

    /// The index of the selected entry; 0 when the catalog is empty.
    pub closed spec fn selection(self) -> nat {
        self.state as nat
    }

    /// The labels of the catalog's entries, in order.
    pub closed spec fn catalog(self) -> Seq<&'static str> {
        self.games@
    }

    /// The selection lies within the catalog (or is 0 for an empty catalog),
    /// and the catalog fits the selection's range.
    pub open spec fn wf(self) -> bool {
        &&& self.catalog().len() <= MAX_GAMES
        &&& (self.catalog().len() == 0 ==> self.selection() == 0)
        &&& (self.catalog().len() > 0 ==> self.selection() < self.catalog().len())
    }

    /// The standard menu: "Chess" then "Minesweeper", the first selected.
    pub fn new() -> (r: App)
        ensures
            r.wf(),
            r.is_running(),
            r.selection() == 0,
            r.catalog().len() == 2,
            r.catalog()[0]@ == "Chess"@,
            r.catalog()[1]@ == "Minesweeper"@,
    {
        App::default()
    }

    /// A running menu over `games`, in the given order, the first selected.
    pub fn with_games(games: Vec<&'static str>) -> (r: App)
        requires
            games@.len() <= MAX_GAMES,
        ensures
            r.wf(),
            r.is_running(),
            r.selection() == 0,
            r.catalog() == games@,
    {
        App { running: true, state: 0, games }
    }

    /// Handles the tick event of the terminal: nothing changes.
    pub fn tick(&self) {
    }

    /// Stops the application; the menu is otherwise unchanged.
    pub fn quit(&mut self)
        ensures
            !final(self).is_running(),
            final(self).selection() == old(self).selection(),
            final(self).catalog() == old(self).catalog(),
    {
        self.running = false;
    }

    /// Selects the entry directly above the selected one, staying on the
    /// first entry rather than wrapping around.
    pub fn move_up(&mut self)
        requires
            old(self).wf(),
        ensures
            final(self).wf(),
            final(self).selection() == up_selection(old(self).selection()),
            final(self).is_running() == old(self).is_running(),
            final(self).catalog() == old(self).catalog(),
    {
        if self.state > 0 {
            self.state = self.state - 1;
        }
    }

    /// Selects the entry directly below the selected one, staying on the
    /// last entry rather than wrapping around.
    pub fn move_down(&mut self)
        requires
            old(self).wf(),
        ensures
            final(self).wf(),
            final(self).selection() == down_selection(
                old(self).selection(),
                old(self).catalog().len(),
            ),
            final(self).is_running() == old(self).is_running(),
            final(self).catalog() == old(self).catalog(),
    {
        if (self.state as usize) + 1 < self.games.len() {
            self.state = self.state + 1;
        }
    }

    /// The index of the selected entry, or `None` when the catalog is empty
    /// and nothing can be selected.
    pub fn selected(&self) -> (r: Option<u8>)
        requires
            self.wf(),
        ensures
            self.catalog().len() == 0 ==> r.is_none(),
            self.catalog().len() > 0 ==> r == Some(self.selection() as u8),
    {
        if self.games.len() == 0 {
            None
        } else {
            Some(self.state)
        }
    }

    /// Whether the application is running.
    pub fn running(&self) -> (r: bool)
        ensures
            r == self.is_running(),
    {
        self.running
    }

    /// The labels of the catalog's entries, in order.
    pub fn games(&self) -> (r: &[&'static str])
        ensures
            r@ == self.catalog(),
    {
        self.games.as_slice()
    }
}

impl Default for App {
    /// The standard menu: "Chess" then "Minesweeper", the first selected.
    fn default() -> (r: App)
        ensures
            r.wf(),
            r.is_running(),
            r.selection() == 0,
            r.catalog().len() == 2,
            r.catalog()[0]@ == "Chess"@,
            r.catalog()[1]@ == "Minesweeper"@,
    {
        App { running: true, state: 0, games: vec!["Chess", "Minesweeper"] }
    }
}

/// Moving up again and again reaches the first entry and stays there: if
/// `states` are the successive values of a well-formed menu, each the result
/// of moving up from the one before, every state from index `s` on, where `s`
/// is the first selection, has the first entry selected.
pub proof fn lemma_move_up_converges(states: Seq<App>)
    requires
        states.len() > 0,
        states[0].wf(),
        forall|i: int|
            0 <= i < states.len() - 1 ==> #[trigger] states[i + 1].selection() == up_selection(
                states[i].selection(),
            ),
    ensures
        forall|i: int| states[0].selection() <= i < states.len() ==> #[trigger] states[i].selection() == 0,
{
    assert forall|i: int| 0 <= i < states.len() implies #[trigger] states[i].selection() == (
    if i <= states[0].selection() {
        states[0].selection() - i
    } else {
        0
    }) by {
        lemma_up_steps(states, i);
    }
}

/// After `i` steps up, the selection has dropped by `i`, down to the first entry.
proof fn lemma_up_steps(states: Seq<App>, i: int)
    requires
        0 <= i < states.len(),
        forall|j: int|
            0 <= j < states.len() - 1 ==> #[trigger] states[j + 1].selection() == up_selection(
                states[j].selection(),
            ),
    ensures
        states[i].selection() == (if i <= states[0].selection() {
            states[0].selection() - i
        } else {
            0
        }),
    decreases i,
{
    if i > 0 {
        lemma_up_steps(states, i - 1);
        assert(states[(i - 1) + 1].selection() == up_selection(states[i - 1].selection()));
    }
}

/// Moving down again and again reaches the last entry and stays there: if
/// `states` are the successive values of a well-formed menu over a catalog of
/// `n >= 1` entries, each the result of moving down from the one before over
/// the same catalog, every state from index `n - 1 - s` on, where `s` is the
/// first selection, has the last entry selected.
pub proof fn lemma_move_down_converges(states: Seq<App>)
    requires
        states.len() > 0,
        states[0].wf(),
        states[0].catalog().len() >= 1,
        forall|i: int|
            0 <= i < states.len() - 1 ==> #[trigger] states[i + 1].selection() == down_selection(
                states[i].selection(),
                states[i].catalog().len(),
            ) && states[i + 1].catalog() == states[i].catalog(),
    ensures
        forall|i: int|
            states[0].catalog().len() - 1 - states[0].selection() <= i < states.len()
                ==> #[trigger] states[i].selection() == states[0].catalog().len() - 1,
{
    let n = states[0].catalog().len();
    let s = states[0].selection();
    assert forall|i: int| 0 <= i < states.len() implies #[trigger] states[i].selection() == (if i
        <= n - 1 - s {
        s + i
    } else {
        n - 1
    }) by {
        lemma_down_steps(states, i);
    }
}

/// After `i` steps down, the selection has risen by `i`, up to the last entry,
/// and the catalog is the first one.
proof fn lemma_down_steps(states: Seq<App>, i: int)
    requires
        0 <= i < states.len(),
        states[0].wf(),
        states[0].catalog().len() >= 1,
        forall|j: int|
            0 <= j < states.len() - 1 ==> #[trigger] states[j + 1].selection() == down_selection(
                states[j].selection(),
                states[j].catalog().len(),
            ) && states[j + 1].catalog() == states[j].catalog(),
    ensures
        states[i].catalog() == states[0].catalog(),
        states[i].selection() == (if i <= states[0].catalog().len() - 1 - states[0].selection() {
            states[0].selection() + i
        } else {
            states[0].catalog().len() - 1
        }),
    decreases i,
{
    if i > 0 {
        lemma_down_steps(states, i - 1);
        assert(states[(i - 1) + 1].selection() == down_selection(
            states[i - 1].selection(),
            states[i - 1].catalog().len(),
        ));
    }
}

/// On a catalog of a single entry, moving up or down keeps the selection.
pub proof fn lemma_single_entry_fixed(a: App)
    requires
        a.wf(),
        a.catalog().len() == 1,
    ensures
        up_selection(a.selection()) == a.selection(),
        down_selection(a.selection(), a.catalog().len()) == a.selection(),
{
}

} // verus!

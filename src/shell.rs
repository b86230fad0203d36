use vstd::prelude::*;
use crate::game::Game;
use crate::menu::{down_selection, up_selection, App};

verus! {

/// The key of a key press, as far as the menu and the games tell keys apart.
#[derive(Debug, Clone, Copy, PartialEq, Eq, Structural)]
pub enum KeyCode {
    Up,
    Down,
    Enter,
    Esc,
    Char(char),
    Other,
}

/// A key press: the key, and whether Control was the one modifier held.
#[derive(Debug, Clone, Copy, PartialEq, Eq, Structural)]
pub struct KeyPress {
    pub code: KeyCode,
    pub control: bool,
}

/// An input event from the terminal.
#[derive(Debug, Clone, Copy, PartialEq, Eq, Structural)]
pub enum Event {
    /// A periodic tick, only for redrawing.
    Tick,
    /// A key press.
    Key(KeyPress),
    /// Any mouse event.
    Mouse,
    /// The terminal was resized to the given columns and rows.
    Resize(u16, u16),
}

/// Which view has the input focus.
pub enum Screen {
    /// The games menu.
    AtMenu,
    /// A game of chess, which receives every key until it quits.
    InGame(Game),
}

/// The key asks to quit the current view: Esc, `q`, or Control with `c` or `C`.
pub open spec fn quit_key(k: KeyPress) -> bool {
    ||| k.code == KeyCode::Esc
    ||| k.code == KeyCode::Char('q')
    ||| (k.control && (k.code == KeyCode::Char('c') || k.code == KeyCode::Char('C')))
}

/// Whether the key asks to quit the current view.
pub fn is_quit_key(key: &KeyPress) -> (r: bool)
    ensures
        r == quit_key(*key),
{
    match key.code {
        KeyCode::Esc => true,
        KeyCode::Char(c) => c == 'q' || (key.control && (c == 'c' || c == 'C')),
        _ => false,
    }
}

/// Handles a key press at the games menu. A quit key stops the application,
/// Up and Down move the selection, and Enter returns the index of the
/// selected entry to launch (`None` for an empty catalog). Other keys change
/// nothing; only Enter returns an index.
pub fn handle_key_events(key: KeyPress, app: &mut App) -> (r: Option<u8>)
    requires
        old(app).wf(),
    ensures
        final(app).wf(),
        final(app).catalog() == old(app).catalog(),
        final(app).is_running() == (old(app).is_running() && !quit_key(key)),
        final(app).selection() == (if key.code == KeyCode::Up {
            up_selection(old(app).selection())
        } else if key.code == KeyCode::Down {
            down_selection(old(app).selection(), old(app).catalog().len())
        } else {
            old(app).selection()
        }),
        r == (if key.code == KeyCode::Enter && old(app).catalog().len() > 0 {
            Some(old(app).selection() as u8)
        } else {
            None
        }),
{
    if is_quit_key(&key) {
        app.quit();
        return None;
    }
    match key.code {
        KeyCode::Up => {
            app.move_up();
            None
        },
        KeyCode::Down => {
            app.move_down();
            None
        },
        KeyCode::Enter => app.selected(),
        _ => None,
    }
}

/// The whole application: the games menu, and the game in progress if one
/// was launched.
pub struct Shell {
    app: App,
    screen: Screen,
}

impl Shell {
    /// The games menu.
    pub closed spec fn menu(self) -> App {
        self.app
    }

    /// The view that has the input focus.
    pub closed spec fn screen_spec(self) -> Screen {
        self.screen
    }

    /// The menu is well formed.
    pub open spec fn wf(self) -> bool {
        self.menu().wf()
    }

    /// The application as it starts: the standard menu with its first entry
    /// selected, and the focus on the menu.
    pub fn new() -> (r: Shell)
        ensures
            r.wf(),
            r.menu().is_running(),
            r.menu().selection() == 0,
            r.menu().catalog().len() == 2,
            r.menu().catalog()[0]@ == "Chess"@,
            r.menu().catalog()[1]@ == "Minesweeper"@,
            r.screen_spec() is AtMenu,
    {
        Shell { app: App::new(), screen: Screen::AtMenu }
    }

    /// Takes one input event. At the menu a key goes to the menu (see
    /// `handle_key_events`), and launching entry 0 starts a fresh game of
    /// chess; launching another entry leaves the focus on the menu. In a game,
    /// a quit key drops the game and gives the focus back to the menu; other
    /// keys belong to the game, which ignores them. Events other than key
    /// presses change nothing.
    pub fn step(&mut self, event: Event)
        requires
            old(self).wf(),
        ensures
            final(self).wf(),
            final(self).menu().catalog() == old(self).menu().catalog(),
            match event {
                Event::Key(k) => match old(self).screen_spec() {
                    Screen::AtMenu => {
                        &&& final(self).menu().is_running() == (old(self).menu().is_running()
                            && !quit_key(k))
                        &&& final(self).menu().selection() == (if k.code == KeyCode::Up {
                            up_selection(old(self).menu().selection())
                        } else if k.code == KeyCode::Down {
                            down_selection(
                                old(self).menu().selection(),
                                old(self).menu().catalog().len(),
                            )
                        } else {
                            old(self).menu().selection()
                        })
                        &&& if k.code == KeyCode::Enter && old(self).menu().catalog().len() > 0
                            && old(self).menu().selection() == 0 {
                            &&& final(self).screen_spec() is InGame
                            &&& final(self).screen_spec()->InGame_0.is_fresh()
                        } else {
                            final(self).screen_spec() is AtMenu
                        }
                    },
                    Screen::InGame(_) => {
                        &&& final(self).menu() == old(self).menu()
                        &&& if quit_key(k) {
                            final(self).screen_spec() is AtMenu
                        } else {
                            final(self).screen_spec() == old(self).screen_spec()
                        }
                    },
                },
                _ => {
                    &&& final(self).menu() == old(self).menu()
                    &&& final(self).screen_spec() == old(self).screen_spec()
                },
            },
    {
        match event {
            Event::Key(key) => {
                if self.in_game() {
                    if is_quit_key(&key) {
                        self.screen = Screen::AtMenu;
                    }
                } else {
                    let launch = handle_key_events(key, &mut self.app);
                    if launch == Some(0u8) {
                        self.screen = Screen::InGame(Game::new());
                    }
                }
            },
            _ => {},
        }
    }

    /// Whether a game has the input focus.
    pub fn in_game(&self) -> (r: bool)
        ensures
            r == (self.screen_spec() is InGame),
    {
        match self.screen {
            Screen::InGame(_) => true,
            Screen::AtMenu => false,
        }
    }

    /// Whether the application is running.
    pub fn running(&self) -> (r: bool)
        ensures
            r == self.menu().is_running(),
    {
        self.app.running()
    }

    /// The games menu.
    pub fn app(&self) -> (r: &App)
        ensures
            *r == self.menu(),
    {
        &self.app
    }

    /// The view that has the input focus.
    pub fn screen(&self) -> (r: &Screen)
        ensures
            *r == self.screen_spec(),
    {
        &self.screen
    }
}

} // verus!

//! The state of the program: the screen that is shown, the menu, the session.

use vstd::prelude::*;
use rusqlite::Connection;
use crate::session::{type_label, Session, Type};

verus! {

/// The screens of the program.
#[derive(Debug, Clone, Copy, PartialEq, Eq, Structural)]
pub enum Screen {
    Menu,
    Practice,
    Test,
}

/// A key that was pressed, as far as the program tells keys apart.
#[derive(Debug, Clone, Copy, PartialEq, Eq, Structural)]
pub enum Key {
    Char(char),
    Enter,
    Esc,
    Backspace,
    Up,
    Down,
    Other,
}

/// An entry of the menu.
#[derive(Debug, Copy, Clone, PartialEq, Eq, Structural)]
pub enum MenuAction {
    Session(Type),
    Exit,
}

/// The name of each entry in the menu.
pub open spec fn action_label(action: MenuAction) -> Seq<char> {
    match action {
        MenuAction::Session(t) => type_label(t),
        MenuAction::Exit => "Exit"@,
    }
}

impl MenuAction {
    /// The name of the entry in the menu.
    pub fn label(&self) -> (text: &'static str)
        ensures
            text@ == action_label(*self),
    {
        match self {
            MenuAction::Session(t) => t.label(),
            MenuAction::Exit => "Exit",
        }
    }
}

/// The entries of the menu, from the top.
pub open spec fn menu() -> Seq<MenuAction> {
    seq![
        MenuAction::Session(Type::Group),
        MenuAction::Session(Type::Marked),
        MenuAction::Session(Type::Weak),
        MenuAction::Exit,
    ]
}

/// The state of the program.
#[derive(Debug)]
pub struct App {
    pub conn: Connection,
    pub current_screen: Screen,
    pub menu_items: Vec<MenuAction>,
    pub selected: usize,
    pub should_quit: bool,
    pub session: Option<Session>,
    pub error: Option<String>,
}

impl App {
    /// The selection names an entry of the menu, and the session, if there
    /// is one, is well formed.
    pub open spec fn wf(&self) -> bool {
        &&& self.selected < self.menu_items.len()
        &&& self.session matches Some(session) ==> session.wf()
    }

    /// Whether two states differ in nothing but the session, the screen and
    /// the message.
    pub open spec fn same_menu(&self, other: &App) -> bool {
        &&& self.conn == other.conn
        &&& self.menu_items == other.menu_items
        &&& self.selected == other.selected
        &&& self.should_quit == other.should_quit
    }

    /// Whether the state is well formed, for a caller that has set its
    /// fields itself.
    pub fn is_well_formed(&self) -> (ok: bool)
        ensures
            ok == self.wf(),
    {
        self.selected < self.menu_items.len() && match &self.session {
            Some(session) => session.is_well_formed(),
            None => true,
        }
    }

    /// The program as it starts: on the menu, with its first entry selected
    /// and no session.
    pub fn new(conn: Connection) -> (app: Self)
        ensures
            app.conn == conn,
            app.current_screen == Screen::Menu,
            app.menu_items@ == menu(),
            app.selected == 0,
            !app.should_quit,
            app.session is None,
            app.error is None,
            app.wf(),
    {
        let mut menu_items: Vec<MenuAction> = Vec::new();
        menu_items.push(MenuAction::Session(Type::Group));
        menu_items.push(MenuAction::Session(Type::Marked));
        menu_items.push(MenuAction::Session(Type::Weak));
        menu_items.push(MenuAction::Exit);
        assert(menu_items@ =~= menu());
        App {
            conn,
            current_screen: Screen::Menu,
            menu_items,
            selected: 0,
            should_quit: false,
            session: None,
            error: None,
        }
    }

    /// Selects the entry below, or the first one below the last.
    pub fn next(&mut self)
        requires
            old(self).menu_items.len() > 0,
            old(self).selected < usize::MAX,
        ensures
            final(self).selected == (old(self).selected + 1) % (old(self).menu_items.len() as int),
            final(self).selected < final(self).menu_items.len(),
            old(self).selected + 1 == old(self).menu_items.len() ==> final(self).selected == 0,
            old(self).selected + 1 < old(self).menu_items.len() ==> final(self).selected == old(self).selected + 1,
            *final(self) == (App { selected: final(self).selected, ..*old(self) }),
    {
        proof {
            let n = self.menu_items.len() as int;
            if self.selected + 1 < n {
                vstd::arithmetic::div_mod::lemma_small_mod((self.selected + 1) as nat, n as nat);
            }
            vstd::arithmetic::div_mod::lemma_mod_self_0(n);
            vstd::arithmetic::div_mod::lemma_mod_bound(self.selected + 1, n);
        }
        self.selected = (self.selected + 1) % self.menu_items.len();
    }

    /// Selects the entry above, or the last one above the first.
    pub fn previous(&mut self)
        requires
            old(self).menu_items.len() > 0,
        ensures
            old(self).selected == 0 ==> final(self).selected == old(self).menu_items.len() - 1,
            old(self).selected > 0 ==> final(self).selected == old(self).selected - 1,
            *final(self) == (App { selected: final(self).selected, ..*old(self) }),
    {
        if self.selected == 0 {
            self.selected = self.menu_items.len() - 1;
        } else {
            self.selected -= 1;
        }
    }

    /// Takes the selected entry: `Exit` asks the program to end, and nothing
    /// else changes.
    pub fn select(&mut self)
        requires
            old(self).selected < old(self).menu_items.len(),
        ensures
            final(self).should_quit == (old(self).should_quit || old(self).menu_items[old(self).selected as int] is Exit),
            *final(self) == (App { should_quit: final(self).should_quit, ..*old(self) }),
    {
        match self.menu_items[self.selected] {
            MenuAction::Exit => {
                self.should_quit = true;
            },
            _ => {},
        }
    }
}

} // verus!

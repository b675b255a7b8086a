//! Keys, the actions that keys are bound to, and the table that binds them.

use vstd::prelude::*;

verus! {

/// What the navigator can be asked to do.
#[derive(Clone, Copy, Debug, PartialEq, Eq, Structural)]
pub enum Action {
    Up,
    Down,
    Left,
    Right,
    Select,
    Deselect,
    Refresh,
}

/// The key that was pressed, without its modifiers.
#[derive(Clone, Copy, Debug, PartialEq, Eq, Structural)]
pub enum KeyCode {
    Up,
    Down,
    Left,
    Right,
    PageUp,
    PageDown,
    Home,
    End,
    Enter,
    Esc,
    Tab,
    Backspace,
    Delete,
    Char(char),
    F(u8),
    Other,
}

/// A key with the modifiers that were held.
#[derive(Clone, Copy, Debug, PartialEq, Eq, Structural)]
pub struct Key {
    pub code: KeyCode,
    pub shift: bool,
    pub control: bool,
    pub alt: bool,
}

/// One line of the table: a key and the action it stands for.
#[derive(Clone, Copy, Debug, PartialEq, Eq, Structural)]
pub struct Binding {
    pub key: Key,
    pub action: Action,
}

/// The table of bindings. Where a key occurs twice, its first line counts.
#[derive(Clone, Debug, PartialEq, Eq)]
pub struct Keybindings(pub Vec<Binding>);

impl Key {
    pub open spec fn bare(code: KeyCode) -> Key {
        Key { code, shift: false, control: false, alt: false }
    }

    /// The key without modifiers.
    pub fn plain(code: KeyCode) -> (key: Key)
        ensures
            key == Key::bare(code),
    {
        Key { code, shift: false, control: false, alt: false }
    }
}

/// The action of the first line from line `from` on that binds `key`.
pub open spec fn bound_from(table: Seq<Binding>, key: Key, from: int) -> Option<Action>
    decreases table.len() - from,
{
    if from < 0 || from >= table.len() {
        None
    } else if table[from].key == key {
        Some(table[from].action)
    } else {
        bound_from(table, key, from + 1)
    }
}

impl Keybindings {
    /// The action that `key` stands for, if it is bound.
    pub open spec fn action(self, key: Key) -> Option<Action> {
        bound_from(self.0@, key, 0)
    }

    /// Looks up the action that `key` stands for.
    pub fn get(&self, key: Key) -> (action: Option<Action>)
        ensures
            action == self.action(key),
    {
        let mut i: usize = 0;
        while i < self.0.len()
            invariant
                i <= self.0@.len(),
                bound_from(self.0@, key, 0) == bound_from(self.0@, key, i as int),
            decreases self.0.len() - i,
        {
            if self.0[i].key == key {
                return Some(self.0[i].action);
            }
            i = i + 1;
        }
        None
    }

    /// The arrow keys move, Enter selects, Esc deselects, F5 refreshes.
    pub open spec fn standard() -> Seq<Binding> {
        seq![
            Binding { key: Key::bare(KeyCode::Up), action: Action::Up },
            Binding { key: Key::bare(KeyCode::Down), action: Action::Down },
            Binding { key: Key::bare(KeyCode::Left), action: Action::Left },
            Binding { key: Key::bare(KeyCode::Right), action: Action::Right },
            Binding { key: Key::bare(KeyCode::Enter), action: Action::Select },
            Binding { key: Key::bare(KeyCode::Esc), action: Action::Deselect },
            Binding { key: Key::bare(KeyCode::F(5)), action: Action::Refresh },
        ]
    }

    /// Builds the standard table.
    pub fn new() -> (table: Keybindings)
        ensures
            table.0@ == Keybindings::standard(),
    {
        let mut lines: Vec<Binding> = Vec::new();
        lines.push(Binding { key: Key::plain(KeyCode::Up), action: Action::Up });
        lines.push(Binding { key: Key::plain(KeyCode::Down), action: Action::Down });
        lines.push(Binding { key: Key::plain(KeyCode::Left), action: Action::Left });
        lines.push(Binding { key: Key::plain(KeyCode::Right), action: Action::Right });
        lines.push(Binding { key: Key::plain(KeyCode::Enter), action: Action::Select });
        lines.push(Binding { key: Key::plain(KeyCode::Esc), action: Action::Deselect });
        lines.push(Binding { key: Key::plain(KeyCode::F(5)), action: Action::Refresh });
        assert(lines@ =~= Keybindings::standard());
        Keybindings(lines)
    }
}

} // verus!

//! The table that binds key chords to commands, and the lookups in both
//! directions: from a key press to its command, from a command to its chord.

use crate::keyboard::code::Code;
use crate::keyboard::key::Key;
use crate::keyboard::key::KeyView;
use crate::keyboard::key_map::code_of_key;
use crate::keyboard::key_map::is_letter_key;
use crate::keyboard::key_map::key_code;
use crate::keyboard::keybind_action::KeybindAction;
use crate::keyboard::modifiers::Modifiers;
use vstd::prelude::*;

verus! {

/// One row of the table: the chord `(modifiers, code)` triggers `action`.
#[derive(Debug, Clone, Copy, PartialEq, Eq, Structural, Hash)]
pub struct Keybind {
    pub modifiers: Modifiers,
    pub code: Code,
    pub action: KeybindAction,
}

/// The row is bound to the chord `(modifiers, code)`.
pub open spec fn has_chord(row: Keybind, modifiers: Modifiers, code: Code) -> bool {
    row.modifiers == modifiers && row.code == code
}

/// No two rows of the table are bound to the same chord.
pub open spec fn distinct_chords(table: Seq<Keybind>) -> bool {
    forall|i: int, j: int|
        0 <= i < j < table.len() ==> !has_chord(
            #[trigger] table[i],
            (#[trigger] table[j]).modifiers,
            table[j].code,
        )
}

/// The command of the first row at or after `start` that is bound to the
/// chord `(modifiers, code)`.
pub open spec fn lookup_from(table: Seq<Keybind>, start: int, modifiers: Modifiers, code: Code)
    -> Option<KeybindAction>
    decreases table.len() - start,
{
    if start < 0 || start >= table.len() {
        None
    } else if has_chord(table[start], modifiers, code) {
        Some(table[start].action)
    } else {
        lookup_from(table, start + 1, modifiers, code)
    }
}

/// The command that the table binds to the chord `(modifiers, code)`.
pub open spec fn lookup(table: Seq<Keybind>, modifiers: Modifiers, code: Code) -> Option<
    KeybindAction,
> {
    lookup_from(table, 0, modifiers, code)
}

/// The command that a key press triggers: the key is translated to a physical
/// key, and the chord of the held modifiers and that key is looked up.
pub open spec fn resolve(table: Seq<Keybind>, key: KeyView, modifiers: Modifiers) -> Option<
    KeybindAction,
> {
    match key_code(key) {
        Some(code) => lookup(table, modifiers, code),
        None => None,
    }
}

/// The chord of the first row at or after `start` that triggers `action`.
pub open spec fn first_chord_from(table: Seq<Keybind>, start: int, action: KeybindAction)
    -> Option<(Modifiers, Code)>
    decreases table.len() - start,
{
    if start < 0 || start >= table.len() {
        None
    } else if table[start].action == action {
        Some((table[start].modifiers, table[start].code))
    } else {
        first_chord_from(table, start + 1, action)
    }
}

/// The chord that triggers `action`; where several do, the one that comes
/// first in the table.
pub open spec fn first_chord(table: Seq<Keybind>, action: KeybindAction) -> Option<
    (Modifiers, Code),
> {
    first_chord_from(table, 0, action)
}

/// The position of the row bound to the chord of `row`, searching from `start`;
/// the length of the table if there is none.
pub open spec fn chord_position(table: Seq<Keybind>, start: int, row: Keybind) -> int
    decreases table.len() - start,
{
    if start < 0 || start >= table.len() {
        table.len() as int
    } else if has_chord(table[start], row.modifiers, row.code) {
        start
    } else {
        chord_position(table, start + 1, row)
    }
}

/// The table after `row` is bound: a row with the same chord is replaced
/// where it stands, otherwise `row` is added at the end.
pub open spec fn with_binding(table: Seq<Keybind>, row: Keybind) -> Seq<Keybind> {
    let at = chord_position(table, 0, row);
    if at < table.len() {
        table.update(at, row)
    } else {
        table.push(row)
    }
}

/// The table that a new manager starts with.
pub open spec fn default_table() -> Seq<Keybind> {
    seq![
        Keybind {
            modifiers: Modifiers::spec_ctrl(),
            code: Code::KeyQ,
            action: KeybindAction::QuitApplication,
        },
        Keybind {
            modifiers: Modifiers::spec_ctrl(),
            code: Code::KeyK,
            action: KeybindAction::ShowSettings,
        },
        Keybind {
            modifiers: Modifiers::spec_ctrl(),
            code: Code::KeyN,
            action: KeybindAction::NewFile,
        },
        Keybind {
            modifiers: Modifiers::spec_ctrl(),
            code: Code::KeyS,
            action: KeybindAction::SaveFile,
        },
    ]
}

/// The key bindings of the application: an ordered table of rows, no two of
/// them bound to the same chord. The rows keep the order in which their
/// chords were first bound, so that the chord found for a command does not
/// depend on the order in which a hash table is walked.
#[derive(Debug)]
pub struct KeybindManager {
    bindings: Vec<Keybind>,
}

impl KeybindManager {
    #[verifier::type_invariant]
    spec fn chords_are_distinct(self) -> bool {
        distinct_chords(self.bindings@)
    }

    /// The rows of the table, in the order in which their chords were first
    /// bound.
    pub closed spec fn table(self) -> Seq<Keybind> {
        self.bindings@
    }

    /// A manager with an empty table.
    pub fn new() -> (r: KeybindManager)
        ensures
            r.table() == Seq::<Keybind>::empty(),
    {
        KeybindManager { bindings: Vec::new() }
    }

    /// The number of rows.
    pub fn len(&self) -> (r: usize)
        ensures
            r == self.table().len(),
            distinct_chords(self.table()),
    {
        proof {
            use_type_invariant(self);
        }
        self.bindings.len()
    }

    /// Binds the chord `(modifiers, code)` to `action`. A chord that is
    /// already bound keeps its place in the table and triggers `action` from
    /// now on.
    pub fn insert(&mut self, modifiers: Modifiers, code: Code, action: KeybindAction)
        ensures
            final(self).table() == with_binding(
                old(self).table(),
                Keybind { modifiers, code, action },
            ),
            distinct_chords(final(self).table()),
    {
        proof {
            use_type_invariant(&*self);
        }
        let row = Keybind { modifiers, code, action };
        let n = self.bindings.len();
        let mut at: usize = 0;
        while at < n && !(self.bindings[at].modifiers == modifiers && self.bindings[at].code == code)
            invariant
                n == self.bindings@.len(),
                at <= n,
                row == (Keybind { modifiers, code, action }),
                chord_position(self.bindings@, 0, row) == chord_position(
                    self.bindings@,
                    at as int,
                    row,
                ),
                forall|k: int|
                    0 <= k < at ==> !has_chord(#[trigger] self.bindings@[k], modifiers, code),
            decreases n - at,
        {
            at = at + 1;
        }
        let mut rows: Vec<Keybind> = Vec::new();
        std::mem::swap(&mut self.bindings, &mut rows);
        if at < n {
            rows.set(at, row);
        } else {
            rows.push(row);
        }
        self.bindings = rows;
    }

    /// The command that a key press triggers, if any: the command bound to
    /// the chord of `modifiers` and the physical key that `key` stands for.
    pub fn get_app_action(&self, key: &Key, modifiers: Modifiers) -> (r: Option<KeybindAction>)
        ensures
            r == resolve(self.table(), key@, modifiers),
            !is_letter_key(key@) ==> r is None,
    {
        match code_of_key(key) {
            Some(code) => self.action_of_chord(modifiers, code),
            None => None,
        }
    }

    /// The command bound to the chord `(modifiers, code)`, if any.
    pub fn action_of_chord(&self, modifiers: Modifiers, code: Code) -> (r: Option<KeybindAction>)
        ensures
            r == lookup(self.table(), modifiers, code),
    {
        let n = self.bindings.len();
        let mut i: usize = 0;
        while i < n
            invariant
                n == self.bindings@.len(),
                i <= n,
                lookup(self.bindings@, modifiers, code) == lookup_from(
                    self.bindings@,
                    i as int,
                    modifiers,
                    code,
                ),
            decreases n - i,
        {
            let here = self.bindings[i];
            if here.modifiers == modifiers && here.code == code {
                return Some(here.action);
            }
            i = i + 1;
        }
        None
    }

    /// The chord that triggers `keybind_action`, if any; where several do,
    /// the one that comes first in the table.
    pub fn get_key_for_action(&self, keybind_action: KeybindAction) -> (r: Option<
        (Modifiers, Code),
    >)
        ensures
            r == first_chord(self.table(), keybind_action),
    {
        let n = self.bindings.len();
        let mut i: usize = 0;
        while i < n
            invariant
                n == self.bindings@.len(),
                i <= n,
                first_chord(self.bindings@, keybind_action) == first_chord_from(
                    self.bindings@,
                    i as int,
                    keybind_action,
                ),
            decreases n - i,
        {
            let here = self.bindings[i];
            if here.action == keybind_action {
                return Some((here.modifiers, here.code));
            }
            i = i + 1;
        }
        None
    }
}

impl Clone for KeybindManager {
    fn clone(&self) -> (r: KeybindManager)
        ensures
            r.table() == self.table(),
    {
        proof {
            use_type_invariant(self);
        }
        let bindings = self.bindings.clone();
        assert(bindings@ =~= self.bindings@);
        KeybindManager { bindings }
    }
}

impl Default for KeybindManager {
    /// The manager that the application starts with: Ctrl+Q quits, Ctrl+K
    /// shows the settings, Ctrl+N starts a new file and Ctrl+S saves.
    fn default() -> (r: KeybindManager)
        ensures
            r.table() == default_table(),
    {
        let mut bindings: Vec<Keybind> = Vec::new();
        bindings.push(
            Keybind {
                modifiers: Modifiers::ctrl(),
                code: Code::KeyQ,
                action: KeybindAction::QuitApplication,
            },
        );
        bindings.push(
            Keybind {
                modifiers: Modifiers::ctrl(),
                code: Code::KeyK,
                action: KeybindAction::ShowSettings,
            },
        );
        bindings.push(
            Keybind {
                modifiers: Modifiers::ctrl(),
                code: Code::KeyN,
                action: KeybindAction::NewFile,
            },
        );
        bindings.push(
            Keybind { modifiers: Modifiers::ctrl(), code: Code::KeyS, action: KeybindAction::SaveFile },
        );
        KeybindManager { bindings }
    }
}

} // verus!

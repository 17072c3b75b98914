//! What holds of the key binding table and of its lookups, whatever the
//! table holds.

use crate::keyboard::code::Code;
use crate::keyboard::key::KeyView;
use crate::keyboard::key_map::code_key;
use crate::keyboard::key_map::is_letter_key;
use crate::keyboard::key_map::key_code;
use crate::keyboard::keybind_action::KeybindAction;
use crate::keyboard::keybind_manager::chord_position;
use crate::keyboard::keybind_manager::default_table;
use crate::keyboard::keybind_manager::distinct_chords;
use crate::keyboard::keybind_manager::first_chord;
use crate::keyboard::keybind_manager::first_chord_from;
use crate::keyboard::keybind_manager::has_chord;
use crate::keyboard::keybind_manager::lookup;
use crate::keyboard::keybind_manager::lookup_from;
use crate::keyboard::keybind_manager::resolve;
use crate::keyboard::keybind_manager::with_binding;
use crate::keyboard::keybind_manager::Keybind;
use crate::keyboard::modifiers::Modifiers;
use crate::keyboard::shortcut_text::action_label;
use vstd::prelude::*;

verus! {

/// A search from `start` that meets no row with the chord before `at` goes
/// on from `at`.
proof fn lemma_lookup_skips(
    table: Seq<Keybind>,
    start: int,
    at: int,
    modifiers: Modifiers,
    code: Code,
)
    requires
        0 <= start <= at <= table.len(),
        forall|k: int| start <= k < at ==> !has_chord(#[trigger] table[k], modifiers, code),
    ensures
        lookup_from(table, start, modifiers, code) == lookup_from(table, at, modifiers, code),
    decreases at - start,
{
    if start < at {
        lemma_lookup_skips(table, start + 1, at, modifiers, code);
    }
}

/// The position that a chord search reports is that of the first row with
/// the chord, or the length of the table where no row has it.
proof fn lemma_chord_position(table: Seq<Keybind>, start: int, row: Keybind)
    requires
        0 <= start <= table.len(),
    ensures
        start <= chord_position(table, start, row) <= table.len(),
        chord_position(table, start, row) < table.len() ==> has_chord(
            table[chord_position(table, start, row)],
            row.modifiers,
            row.code,
        ),
        forall|k: int|
            start <= k < chord_position(table, start, row) ==> !has_chord(
                #[trigger] table[k],
                row.modifiers,
                row.code,
            ),
    decreases table.len() - start,
{
    if start < table.len() && !has_chord(table[start], row.modifiers, row.code) {
        lemma_chord_position(table, start + 1, row);
    }
}

/// In a table without duplicate chords, the chord of every row is looked up
/// to the command of that row.
pub proof fn lemma_lookup_finds_every_row(table: Seq<Keybind>, i: int)
    requires
        distinct_chords(table),
        0 <= i < table.len(),
    ensures
        lookup(table, table[i].modifiers, table[i].code) == Some(table[i].action),
{
    lemma_lookup_skips(table, 0, i, table[i].modifiers, table[i].code);
}

/// A lookup that finds a command finds it in a row bound to the chord; one
/// that finds none means that no row is bound to the chord.
pub proof fn lemma_lookup_is_a_row(table: Seq<Keybind>, modifiers: Modifiers, code: Code)
    ensures
        match lookup(table, modifiers, code) {
            Some(action) => exists|i: int|
                0 <= i < table.len() && has_chord(#[trigger] table[i], modifiers, code)
                    && table[i].action == action,
            None => forall|i: int|
                0 <= i < table.len() ==> !has_chord(#[trigger] table[i], modifiers, code),
        },
{
    let probe = Keybind { modifiers, code, action: KeybindAction::CutText };
    lemma_chord_position(table, 0, probe);
    let at = chord_position(table, 0, probe);
    lemma_lookup_skips(table, 0, at, modifiers, code);
    if at < table.len() {
        assert(has_chord(table[at], modifiers, code) && table[at].action == table[at].action);
    }
}

/// The table that a new manager starts with has no duplicate chords.
pub proof fn lemma_default_table_distinct()
    ensures
        distinct_chords(default_table()),
{
}

/// Every chord of the default table triggers the command of its row, for
/// every key that stands for the physical key of that row.
pub proof fn lemma_default_chords_resolve(i: int, key: KeyView)
    requires
        0 <= i < default_table().len(),
        key_code(key) == Some(default_table()[i].code),
    ensures
        resolve(default_table(), key, default_table()[i].modifiers) == Some(
            default_table()[i].action,
        ),
{
    lemma_default_table_distinct();
    lemma_lookup_finds_every_row(default_table(), i);
}

/// With the default table, Ctrl+S saves, Ctrl+N starts a new file, Ctrl+Q
/// quits and Ctrl+K shows the settings.
pub proof fn lemma_default_shortcuts()
    ensures
        resolve(default_table(), KeyView::Character("s"@), Modifiers::spec_ctrl()) == Some(
            KeybindAction::SaveFile,
        ),
        resolve(default_table(), KeyView::Character("n"@), Modifiers::spec_ctrl()) == Some(
            KeybindAction::NewFile,
        ),
        resolve(default_table(), KeyView::Character("q"@), Modifiers::spec_ctrl()) == Some(
            KeybindAction::QuitApplication,
        ),
        resolve(default_table(), KeyView::Character("k"@), Modifiers::spec_ctrl()) == Some(
            KeybindAction::ShowSettings,
        ),
{
    reveal_strlit("s");
    reveal_strlit("n");
    reveal_strlit("q");
    reveal_strlit("k");
    lemma_default_chords_resolve(3, KeyView::Character("s"@));
    lemma_default_chords_resolve(2, KeyView::Character("n"@));
    lemma_default_chords_resolve(0, KeyView::Character("q"@));
    lemma_default_chords_resolve(1, KeyView::Character("k"@));
}

/// A key has a physical key code exactly if it types one lowercase letter.
pub proof fn lemma_letter_keys_have_codes(key: KeyView)
    ensures
        key_code(key) is Some <==> is_letter_key(key),
{
}

/// A key that does not type one lowercase letter triggers no command,
/// whatever the table binds and whatever modifiers are held.
pub proof fn lemma_other_keys_resolve_to_nothing(
    table: Seq<Keybind>,
    key: KeyView,
    modifiers: Modifiers,
)
    requires
        !is_letter_key(key),
    ensures
        resolve(table, key, modifiers) is None,
{
}

/// The physical key of a letter key stands for that key again.
pub proof fn lemma_letter_key_round_trip(key: KeyView)
    requires
        is_letter_key(key),
    ensures
        key_code(key) matches Some(code) && code_key(code) == Some(key),
{
    reveal_strlit("a");
    reveal_strlit("b");
    reveal_strlit("c");
    reveal_strlit("d");
    reveal_strlit("e");
    reveal_strlit("f");
    reveal_strlit("g");
    reveal_strlit("h");
    reveal_strlit("i");
    reveal_strlit("j");
    reveal_strlit("k");
    reveal_strlit("l");
    reveal_strlit("m");
    reveal_strlit("n");
    reveal_strlit("o");
    reveal_strlit("p");
    reveal_strlit("q");
    reveal_strlit("r");
    reveal_strlit("s");
    reveal_strlit("t");
    reveal_strlit("u");
    reveal_strlit("v");
    reveal_strlit("w");
    reveal_strlit("x");
    reveal_strlit("y");
    reveal_strlit("z");
    let text = key->Character_0;
    let code = key_code(key)->0;
    let back = code_key(code)->0->Character_0;
    assert(back =~= text);
}

/// The chord found for a command belongs to a row that triggers it; where
/// none is found, no row triggers the command.
pub proof fn lemma_first_chord_is_a_row(table: Seq<Keybind>, action: KeybindAction)
    ensures
        match first_chord(table, action) {
            Some((modifiers, code)) => exists|i: int|
                0 <= i < table.len() && has_chord(#[trigger] table[i], modifiers, code)
                    && table[i].action == action,
            None => forall|i: int| 0 <= i < table.len() ==> (#[trigger] table[i]).action != action,
        },
{
    lemma_first_chord_from_is_a_row(table, 0, action);
}

proof fn lemma_first_chord_from_is_a_row(table: Seq<Keybind>, start: int, action: KeybindAction)
    requires
        0 <= start <= table.len(),
    ensures
        match first_chord_from(table, start, action) {
            Some((modifiers, code)) => exists|i: int|
                start <= i < table.len() && has_chord(#[trigger] table[i], modifiers, code)
                    && table[i].action == action,
            None => forall|i: int|
                start <= i < table.len() ==> (#[trigger] table[i]).action != action,
        },
    decreases table.len() - start,
{
    if start < table.len() {
        if table[start].action == action {
            assert(has_chord(table[start], table[start].modifiers, table[start].code));
        } else {
            lemma_first_chord_from_is_a_row(table, start + 1, action);
        }
    }
}

/// In a table without duplicate chords, the chord found for a command
/// triggers that command.
pub proof fn lemma_found_chord_triggers_action(table: Seq<Keybind>, action: KeybindAction)
    requires
        distinct_chords(table),
        first_chord(table, action) is Some,
    ensures
        first_chord(table, action) matches Some((modifiers, code)) && lookup(
            table,
            modifiers,
            code,
        ) == Some(action),
{
    lemma_first_chord_is_a_row(table, action);
    let (modifiers, code) = first_chord(table, action)->0;
    let i = choose|i: int|
        0 <= i < table.len() && has_chord(#[trigger] table[i], modifiers, code) && table[i].action
            == action;
    lemma_lookup_finds_every_row(table, i);
}

/// A command that no row triggers has the empty shortcut hint.
pub proof fn lemma_unbound_action_has_no_label(table: Seq<Keybind>, action: KeybindAction)
    requires
        forall|i: int| 0 <= i < table.len() ==> (#[trigger] table[i]).action != action,
    ensures
        action_label(first_chord(table, action)) == Seq::<char>::empty(),
{
    lemma_first_chord_is_a_row(table, action);
}

/// With the default table, the shortcut hint of saving is `Ctrl+S`.
pub proof fn lemma_default_save_label()
    ensures
        action_label(first_chord(default_table(), KeybindAction::SaveFile)) == "Ctrl+S"@,
{
    reveal_with_fuel(first_chord_from, 5);
    reveal_strlit("Ctrl");
    reveal_strlit("+");
    reveal_strlit("S");
    reveal_strlit("Ctrl+S");
    assert(action_label(first_chord(default_table(), KeybindAction::SaveFile)) =~= "Ctrl+S"@);
}

/// Binding a chord keeps the table free of duplicate chords. The chord then
/// triggers the new command and every other chord triggers what it did
/// before. The table grows by one row if the chord was not bound, and keeps
/// its length if it was.
pub proof fn lemma_binding_overwrites(
    table: Seq<Keybind>,
    row: Keybind,
    modifiers: Modifiers,
    code: Code,
)
    requires
        distinct_chords(table),
    ensures
        distinct_chords(with_binding(table, row)),
        lookup(with_binding(table, row), row.modifiers, row.code) == Some(row.action),
        !has_chord(row, modifiers, code) ==> lookup(with_binding(table, row), modifiers, code)
            == lookup(table, modifiers, code),
        with_binding(table, row).len() == if lookup(table, row.modifiers, row.code) is Some {
            table.len()
        } else {
            table.len() + 1
        },
{
    let after = with_binding(table, row);
    let at = chord_position(table, 0, row);
    lemma_chord_position(table, 0, row);
    lemma_lookup_skips(table, 0, at, row.modifiers, row.code);
    assert(distinct_chords(after)) by {
        assert forall|i: int, j: int| 0 <= i < j < after.len() implies !has_chord(
            #[trigger] after[i],
            (#[trigger] after[j]).modifiers,
            after[j].code,
        ) by {
            if at < table.len() {
                if i == at {
                    assert(has_chord(table[at], row.modifiers, row.code));
                    assert(!has_chord(table[at], table[j].modifiers, table[j].code));
                } else if j == at {
                    assert(!has_chord(table[i], table[at].modifiers, table[at].code));
                } else {
                    assert(!has_chord(table[i], table[j].modifiers, table[j].code));
                }
            } else {
                if j == table.len() {
                    assert(!has_chord(table[i], row.modifiers, row.code));
                } else {
                    assert(!has_chord(table[i], table[j].modifiers, table[j].code));
                }
            }
        }
    }
    assert(after[at] == row);
    lemma_lookup_finds_every_row(after, at);
    if !has_chord(row, modifiers, code) {
        lemma_lookup_is_a_row(table, modifiers, code);
        lemma_lookup_is_a_row(after, modifiers, code);
        match lookup(table, modifiers, code) {
            Some(action) => {
                let i = choose|i: int|
                    0 <= i < table.len() && has_chord(#[trigger] table[i], modifiers, code)
                        && table[i].action == action;
                assert(i != at);
                assert(after[i] == table[i]);
                lemma_lookup_finds_every_row(after, i);
            },
            None => {
                if lookup(after, modifiers, code) is Some {
                    let j = choose|j: int|
                        0 <= j < after.len() && has_chord(#[trigger] after[j], modifiers, code);
                    assert(j != at);
                    assert(after[j] == table[j]);
                    assert(!has_chord(table[j], modifiers, code));
                }
            },
        }
    }
}

} // verus!

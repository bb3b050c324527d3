//! The hexadecimal keypad: which key sits where, and which of the keys that
//! are held down the machine sees.

use vstd::prelude::*;
use crate::cpu::Cpu;
use crate::state::MachineState;

verus! {

/// The key codes of the keypad from the top left, row by row:
/// `1 2 3 C`, `4 5 6 D`, `7 8 9 E`, `A 0 B F`.
pub open spec fn keypad_layout() -> Seq<u8> {
    seq![0x1u8, 0x2, 0x3, 0xC, 0x4, 0x5, 0x6, 0xD, 0x7, 0x8, 0x9, 0xE, 0xA, 0x0, 0xB, 0xF]
}

/// The position, among the first `upto`, of the last key that is held down.
pub open spec fn last_held(held: Seq<bool>, upto: int) -> Option<int>
    decreases upto,
{
    if upto <= 0 {
        None
    } else if held[upto - 1] {
        Some(upto - 1)
    } else {
        last_held(held, upto - 1)
    }
}

/// The key that the machine sees when the keys at the positions marked in
/// `held` are down: the one furthest along the keypad, or none.
pub open spec fn pressed_key(held: Seq<bool>) -> Option<u8> {
    match last_held(held, 16) {
        Some(position) => Some(keypad_layout()[position]),
        None => None,
    }
}

/// `last_held` finds a held position after which none is held, and finds
/// none only where none is held.
pub proof fn lemma_last_held(held: Seq<bool>, upto: int)
    requires
        0 <= upto <= held.len(),
    ensures
        (match last_held(held, upto) {
            Some(position) => 0 <= position < upto && held[position] && forall|later: int|
                position < later < upto ==> !held[later],
            None => forall|position: int| 0 <= position < upto ==> !held[position],
        }),
    decreases upto,
{
    if upto > 0 && !held[upto - 1] {
        lemma_last_held(held, upto - 1);
    }
}

/// Of the keys that are held down, the one furthest along the keypad wins.
pub proof fn law_last_held_key_wins(held: Seq<bool>, position: int)
    requires
        held.len() == 16,
        0 <= position < 16,
        held[position],
        forall|later: int| position < later < 16 ==> !held[later],
    ensures
        pressed_key(held) == Some(keypad_layout()[position]),
{
    lemma_last_held(held, 16);
}

/// The machine sees no key exactly where none is held down, and a key that
/// it sees is one of the sixteen.
pub proof fn law_no_key_without_a_held_key(held: Seq<bool>)
    requires
        held.len() == 16,
    ensures
        pressed_key(held) is None <==> forall|position: int|
            0 <= position < 16 ==> !held[position],
        pressed_key(held) matches Some(key) ==> key < 16,
{
    lemma_last_held(held, 16);
}

/// The code of the key at `position` of the keypad.
pub fn keypad_code(position: usize) -> (code: u8)
    requires
        position < 16,
    ensures
        code == keypad_layout()[position as int],
        code < 16,
{
    if position == 0 {
        0x1
    } else if position == 1 {
        0x2
    } else if position == 2 {
        0x3
    } else if position == 3 {
        0xC
    } else if position == 4 {
        0x4
    } else if position == 5 {
        0x5
    } else if position == 6 {
        0x6
    } else if position == 7 {
        0xD
    } else if position == 8 {
        0x7
    } else if position == 9 {
        0x8
    } else if position == 10 {
        0x9
    } else if position == 11 {
        0xE
    } else if position == 12 {
        0xA
    } else if position == 13 {
        0x0
    } else if position == 14 {
        0xB
    } else {
        0xF
    }
}

/// Hands the machine the state of the keypad. `keys_down[p]` says whether
/// the key at position `p` of the keypad is held down. The machine sees the
/// held key that is furthest along the keypad, or none.
pub fn poll_input(keys_down: &[bool; 16], cpu: &mut Cpu)
    requires
        old(cpu).wf(),
    ensures
        final(cpu)@ == (MachineState { key: pressed_key(keys_down@), ..old(cpu)@ }),
        final(cpu).wf(),
{
    let mut key: Option<u8> = None;
    let mut position: usize = 0;
    while position < 16
        invariant
            position <= 16,
            key == match last_held(keys_down@, position as int) {
                Some(p) => Some(keypad_layout()[p]),
                None => None,
            },
            key matches Some(k) ==> k < 16,
        decreases 16 - position,
    {
        if keys_down[position] {
            key = Some(keypad_code(position));
        }
        position += 1;
    }
    cpu.set_current_key(key);
}

} // verus!

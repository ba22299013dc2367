//! The sixteen-key input pad.

use vstd::prelude::*;

verus! {

/// Keys on the pad, numbered `0x0` to `0xF`.
pub const KEY_COUNT: usize = 16;

/// Whether `key` names a key of the pad that is held down.
pub open spec fn key_down(keys: Seq<bool>, key: u8) -> bool {
    key < KEY_COUNT && keys[key as int]
}

/// The lowest-numbered key at or above `from` that is held down, if any.
pub open spec fn first_key_down_from(keys: Seq<bool>, from: u8) -> Option<u8>
    decreases KEY_COUNT - from,
{
    if from >= KEY_COUNT {
        None
    } else if keys[from as int] {
        Some(from)
    } else {
        first_key_down_from(keys, (from + 1) as u8)
    }
}

/// The lowest-numbered key that is held down, if any.
pub open spec fn first_key_down(keys: Seq<bool>) -> Option<u8> {
    first_key_down_from(keys, 0)
}

/// `first_key_down` finds a key exactly when one is held, and then the
/// lowest-numbered of those held.
pub proof fn lemma_first_key_down(keys: Seq<bool>)
    ensures
        match first_key_down(keys) {
            Some(k) => k < KEY_COUNT && keys[k as int] && forall|j: int| 0 <= j < k ==> !keys[j],
            None => forall|j: int| 0 <= j < KEY_COUNT ==> !keys[j],
        },
{
    lemma_first_key_down_from(keys, 0);
}

/// `first_key_down_from` finds a held key exactly when one exists at or above
/// `from`, and then the lowest of them.
proof fn lemma_first_key_down_from(keys: Seq<bool>, from: u8)
    ensures
        match first_key_down_from(keys, from) {
            Some(k) => from <= k < KEY_COUNT && keys[k as int] && forall|j: int|
                from <= j < k ==> !keys[j],
            None => forall|j: int| from <= j < KEY_COUNT ==> !keys[j],
        },
    decreases KEY_COUNT - from,
{
    if from < KEY_COUNT && !keys[from as int] {
        lemma_first_key_down_from(keys, (from + 1) as u8);
    }
}

/// The pad.
pub struct Keyboard {
    /// Whether each key is held down.
    pub keys: [bool; 16],
}

impl View for Keyboard {
    type V = Seq<bool>;

    open spec fn view(&self) -> Seq<bool> {
        self.keys@
    }
}

impl Keyboard {
    /// A pad with every key released.
    pub fn new() -> (keyboard: Keyboard)
        ensures
            keyboard@ == Seq::new(KEY_COUNT as nat, |k: int| false),
    {
        let keyboard = Keyboard { keys: [false; 16] };
        assert(keyboard@ =~= Seq::new(KEY_COUNT as nat, |k: int| false));
        keyboard
    }

    /// Records that `key` is now held (`pressed`) or released. A `key` above
    /// `0xF` names no key and changes nothing.
    pub fn set_key(&mut self, key: u8, pressed: bool)
        ensures
            final(self)@ == if key < KEY_COUNT {
                old(self)@.update(key as int, pressed)
            } else {
                old(self)@
            },
    {
        if key < 16 {
            self.keys[key as usize] = pressed;
        }
    }

    /// Whether `key` is held down. A `key` above `0xF` is never held.
    pub fn is_key_pressed(&self, key: u8) -> (pressed: bool)
        ensures
            pressed == key_down(self@, key),
    {
        key < 16 && self.keys[key as usize]
    }

    /// The lowest-numbered key that is held down, or `None` while all are released.
    pub fn get_key_pressed(&self) -> (key: Option<u8>)
        ensures
            key == first_key_down(self@),
    {
        let mut k: u8 = 0;
        while k < 16
            invariant
                k <= 16,
                first_key_down(self@) == first_key_down_from(self@, k),
            decreases 16 - k,
        {
            if self.keys[k as usize] {
                return Some(k);
            }
            k += 1;
        }
        None
    }
}

} // verus!

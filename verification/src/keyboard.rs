//! The 16-key input device the executor queries.
//!
//! The core only reads key states; the host event loop owns the
//! physical key mapping and mutates the state vector through `set_key`.

use vstd::prelude::*;

verus! {

/// The state of one key on the 16-key input device.
#[derive(Copy, Clone, Debug, PartialEq, Eq, Structural)]
pub enum Key {
    Up,
    Down,
}

/// A vector of 16 independent boolean key states, indexed 0-15.
pub struct Keyboard {
    pub keys: [Key; 16],
}

/// Holds when key `i` of the key-state sequence is pressed.
pub open spec fn spec_key_down(keys: Seq<Key>, i: int) -> bool {
    keys[i] is Down
}

/// Holds when `k` is the lowest-indexed key currently pressed.
pub open spec fn spec_is_first_key_down(keys: Seq<Key>, k: u8) -> bool {
    &&& k < 16
    &&& spec_key_down(keys, k as int)
    &&& forall|j: int| 0 <= j < k ==> !spec_key_down(keys, j)
}

impl Keyboard {
    /// A keyboard with every key up.
    pub fn new() -> (kb: Keyboard)
        ensures
            forall|i: int| 0 <= i < 16 ==> !spec_key_down(kb.keys@, i),
    {
        Keyboard { keys: [Key::Up; 16] }
    }

    /// Whether the key with the given index is currently pressed.
    pub fn is_key_down(&self, index: u8) -> (r: bool)
        requires
            index < 16,
        ensures
            r == spec_key_down(self.keys@, index as int),
    {
        match self.keys[index as usize] {
            Key::Up => false,
            Key::Down => true,
        }
    }

    /// The lowest-indexed key currently pressed, if any key is pressed.
    pub fn get_first_key_down(&self) -> (r: Option<u8>)
        ensures
            (match r {
                Option::Some(k) => spec_is_first_key_down(self.keys@, k),
                Option::None => forall|j: int| 0 <= j < 16 ==> !spec_key_down(self.keys@, j),
            }),
    {
        let mut i: u8 = 0;
        while i < 16
            invariant
                i <= 16,
                forall|j: int| 0 <= j < i ==> !spec_key_down(self.keys@, j),
            decreases 16 - i,
        {
            match self.keys[i as usize] {
                Key::Down => {
                    return Some(i);
                },
                Key::Up => {},
            }
            i = i + 1;
        }
        None
    }

    /// Record a key press or release. Only 16 keys exist, so the index
    /// must be at most 15.
    pub fn set_key(&mut self, index: u8, state: Key)
        requires
            index <= 15,
        ensures
            final(self).keys@ == old(self).keys@.update(index as int, state),
    {
        self.keys[index as usize] = state;
    }
}

} // verus!

//! The keys held down between frames, and the intent they add up to.
use vstd::prelude::*;

use std::collections::HashSet;

verus! {

broadcast use vstd::std_specs::hash::group_hash_axioms;

/// Key codes as the windowing layer reports them.
pub const KEY_A: i32 = 0x61;
pub const KEY_D: i32 = 0x64;
pub const KEY_SPACE: i32 = 0x20;

/// One frame's distilled input: the horizontal axis and the jump request.
#[derive(Clone, Copy, Debug, PartialEq, Eq, Structural)]
pub struct Intent {
    pub dx: i32,
    pub jump: bool,
}

/// The intent of a set of held keys: `A` pulls left, `D` pushes right (both
/// cancel out), and space asks for a jump. Other keys are ignored.
pub open spec fn intent_of(held: Set<i32>) -> Intent {
    Intent {
        dx: ((if held.contains(KEY_D) { 1int } else { 0 }) - (if held.contains(KEY_A) {
            1int
        } else {
            0
        })) as i32,
        jump: held.contains(KEY_SPACE),
    }
}

/// The keys that are down right now.
pub struct HeldKeys {
    keys: HashSet<i32>,
}

impl View for HeldKeys {
    type V = Set<i32>;

    closed spec fn view(&self) -> Set<i32> {
        self.keys@
    }
}

impl HeldKeys {
    /// No key held.
    pub fn new() -> (r: HeldKeys)
        ensures
            r@ == Set::<i32>::empty(),
    {
        HeldKeys { keys: HashSet::new() }
    }

    /// Records a key event: a press adds the key, a release removes it.
    pub fn handle_button(&mut self, key: i32, pressed: bool)
        ensures
            pressed ==> final(self)@ == old(self)@.insert(key),
            !pressed ==> final(self)@ == old(self)@.remove(key),
    {
        if pressed {
            self.keys.insert(key);
        } else {
            self.keys.remove(&key);
        }
    }

    pub fn is_held(&self, key: i32) -> (r: bool)
        ensures
            r == self@.contains(key),
    {
        self.keys.contains(&key)
    }

    /// This frame's intent, from the keys held now.
    pub fn intent(&self) -> (r: Intent)
        ensures
            r == intent_of(self@),
    {
        let mut dx: i32 = 0;
        if self.is_held(KEY_A) {
            dx -= 1;
        }
        if self.is_held(KEY_D) {
            dx += 1;
        }
        Intent { dx, jump: self.is_held(KEY_SPACE) }
    }
}

} // verus!

//! The keys that are held down.
//!
//! The event loop records every key that goes down or up; the render loop
//! reads, once per frame, which keys are held. A key is named by its code.

use vstd::prelude::*;

verus! {

/// What happened to a key.
#[derive(Clone, Copy, Debug, PartialEq, Eq, Structural)]
pub enum KeyState {
    Pressed,
    Released,
}

/// The keys that are held down, in the order in which they went down. No key
/// is held twice.
pub struct PressedKeys {
    keys: Vec<u32>,
}

impl View for PressedKeys {
    type V = Seq<u32>;

    closed spec fn view(&self) -> Seq<u32> {
        self.keys@
    }
}

impl PressedKeys {
    /// No key is held twice. `new` makes it so, and `press`, `release` and
    /// `record` keep it so.
    pub open spec fn wf(&self) -> bool {
        self@.no_duplicates()
    }

    /// No key is held.
    pub fn new() -> (keys: Self)
        ensures
            keys@ == Seq::<u32>::empty(),
            keys.wf(),
    {
        PressedKeys { keys: Vec::new() }
    }

    /// Where `key` stands among the held keys, if it is held.
    fn position(&self, key: u32) -> (place: Option<usize>)
        ensures
            match place {
                Some(i) => self@.index_of_first(key) == Some(i as int) && i < self@.len(),
                None => self@.index_of_first(key) == None::<int>,
            },
    {
        let mut i: usize = 0;
        while i < self.keys.len()
            invariant
                i <= self.keys@.len(),
                forall|j: int| 0 <= j < i ==> self.keys@[j] != key,
            decreases self.keys@.len() - i,
        {
            if self.keys[i] == key {
                proof {
                    assert(self@[i as int] == key);
                    self@.index_of_first_ensures(key);
                }
                return Some(i);
            }
            i += 1;
        }
        proof {
            self@.index_of_first_ensures(key);
        }
        None
    }

    /// Whether `key` is held.
    pub fn contains(&self, key: u32) -> (held: bool)
        ensures
            held == self@.contains(key),
    {
        proof {
            self@.index_of_first_ensures(key);
        }
        self.position(key).is_some()
    }

    /// The held keys, in the order in which they went down.
    pub fn keys(&self) -> (keys: &Vec<u32>)
        ensures
            keys@ == self@,
    {
        &self.keys
    }

    /// `key` went down: it is held from now on, behind the keys that were
    /// held before.
    pub fn press(&mut self, key: u32)
        ensures
            final(self)@ == if old(self)@.contains(key) {
                old(self)@
            } else {
                old(self)@.push(key)
            },
            final(self)@.contains(key),
            old(self).wf() ==> final(self).wf(),
    {
        if !self.contains(key) {
            self.keys.push(key);
            assert(self.keys@[self.keys@.len() - 1] == key);
        }
    }

    /// `key` went up: it is held no more, and the other keys stay as they
    /// were.
    pub fn release(&mut self, key: u32)
        ensures
            final(self)@ == old(self)@.remove_value(key),
            old(self).wf() ==> final(self).wf() && !final(self)@.contains(key),
            forall|other: u32|
                other != key ==> final(self)@.contains(other) == old(self)@.contains(other),
    {
        proof {
            self@.index_of_first_ensures(key);
        }
        let ghost before = self.keys@;
        match self.position(key) {
            Some(i) => {
                self.keys.remove(i);
                proof {
                    let after = self.keys@;
                    if before.no_duplicates() {
                        assert forall|a: int, b: int|
                            0 <= a < after.len() && 0 <= b < after.len() && a != b implies after[a]
                            != after[b] by {
                            let a0 = if a < i { a } else { a + 1 };
                            let b0 = if b < i { b } else { b + 1 };
                            assert(after[a] == before[a0] && after[b] == before[b0]);
                        }
                        assert forall|j: int| 0 <= j < after.len() implies after[j] != key by {
                            let j0 = if j < i { j } else { j + 1 };
                            assert(after[j] == before[j0]);
                        }
                    }
                    assert forall|other: u32| other != key implies after.contains(other)
                        == before.contains(other) by {
                        if before.contains(other) {
                            let j = choose|j: int| 0 <= j < before.len() && before[j] == other;
                            let j1 = if j < i { j } else { j - 1 };
                            assert(after[j1] == other);
                        }
                        if after.contains(other) {
                            let j = choose|j: int| 0 <= j < after.len() && after[j] == other;
                            let j0 = if j < i { j } else { j + 1 };
                            assert(before[j0] == other);
                        }
                    }
                }
            },
            None => {},
        }
    }

    /// Records what happened to `key`.
    pub fn record(&mut self, state: KeyState, key: u32)
        ensures
            state == KeyState::Pressed ==> final(self)@ == if old(self)@.contains(key) {
                old(self)@
            } else {
                old(self)@.push(key)
            },
            state == KeyState::Released ==> final(self)@ == old(self)@.remove_value(key),
            old(self).wf() ==> final(self).wf(),
    {
        match state {
            KeyState::Pressed => self.press(key),
            KeyState::Released => self.release(key),
        }
    }
}

} // verus!

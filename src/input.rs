use vstd::prelude::*;

verus! {

/// The keys that the engine reacts to, independent of any platform keycode.
#[derive(Clone, Copy, Debug, PartialEq, Eq, Structural)]
pub enum Key {
    Left,
    Right,
    Up,
    Down,
    Space,
    Q,
    P,
    M,
    Escape,
}

/// The set of keys currently held down.
#[derive(Debug)]
pub struct KeySet {
    held: Vec<Key>,
}

impl View for KeySet {
    type V = Set<Key>;

    closed spec fn view(&self) -> Set<Key> {
        self.held@.to_set()
    }
}

impl KeySet {
    /// No key held.
    pub fn new() -> (r: KeySet)
        ensures
            r@ == Set::<Key>::empty(),
    {
        let r = KeySet { held: Vec::new() };
        assert(r@ =~= Set::<Key>::empty());
        r
    }

    /// Whether no key is held.
    pub fn is_empty(&self) -> (r: bool)
        ensures
            r == (self@ == Set::<Key>::empty()),
    {
        if self.held.len() == 0 {
            assert(self@ =~= Set::<Key>::empty());
            true
        } else {
            assert(self@.contains(self.held@[0]));
            false
        }
    }

    /// Whether `key` is held.
    pub fn contains(&self, key: Key) -> (r: bool)
        ensures
            r == self@.contains(key),
    {
        let mut i: usize = 0;
        while i < self.held.len()
            invariant
                i <= self.held@.len(),
                forall|j: int| 0 <= j < i ==> self.held@[j] != key,
            decreases self.held@.len() - i,
        {
            if self.held[i] == key {
                assert(self.held@.to_set().contains(self.held@[i as int]));
                return true;
            }
            i = i + 1;
        }
        proof {
            if self.held@.to_set().contains(key) {
                let j = choose|j: int| 0 <= j < self.held@.len() && self.held@[j] == key;
                assert(self.held@[j] != key);
            }
        }
        false
    }

    /// Records that `key` went down.
    pub fn press(&mut self, key: Key)
        ensures
            final(self)@ == old(self)@.insert(key),
    {
        if !self.contains(key) {
            self.held.push(key);
        }
        assert(self.held@.to_set() =~= old(self)@.insert(key)) by {
            assert forall|k: Key| #[trigger] self.held@.to_set().contains(k) <==> old(self)@.insert(key).contains(k) by {
                if old(self)@.insert(key).contains(k) && k != key {
                    let j = choose|j: int| 0 <= j < old(self).held@.len() && old(self).held@[j] == k;
                    assert(self.held@[j] == k);
                }
                if k == key {
                    if !old(self)@.contains(key) {
                        assert(self.held@[self.held@.len() - 1] == key);
                    }
                }
            }
        }
    }

    /// Records that `key` went up.
    pub fn release(&mut self, key: Key)
        ensures
            final(self)@ == old(self)@.remove(key),
    {
        let ghost held = self.held@;
        let mut kept: Vec<Key> = Vec::new();
        let mut i: usize = 0;
        while i < self.held.len()
            invariant
                held == self.held@,
                i <= held.len(),
                forall|k: Key| #[trigger] kept@.contains(k) <==>
                    (k != key && exists|j: int| 0 <= j < i && held[j] == k),
            decreases held.len() - i,
        {
            let k = self.held[i];
            let ghost before = kept@;
            if k != key {
                kept.push(k);
            }
            proof {
                assert forall|k2: Key| #[trigger] kept@.contains(k2) <==>
                    (k2 != key && exists|j: int| 0 <= j < i + 1 && held[j] == k2) by {
                    if kept@.contains(k2) {
                        if before.contains(k2) {
                            let j = choose|j: int| 0 <= j < i && held[j] == k2;
                            assert(0 <= j < i + 1 && held[j] == k2);
                        } else {
                            let m = choose|m: int| 0 <= m < kept@.len() && kept@[m] == k2;
                            if m < before.len() {
                                assert(before[m] == k2);
                            }
                            assert(held[i as int] == k2);
                        }
                    }
                    if k2 != key && exists|j: int| 0 <= j < i + 1 && held[j] == k2 {
                        let j = choose|j: int| 0 <= j < i + 1 && held[j] == k2;
                        if j < i {
                            assert(before.contains(k2));
                            let m = choose|m: int| 0 <= m < before.len() && before[m] == k2;
                            assert(kept@[m] == k2);
                        } else {
                            assert(kept@[kept@.len() - 1] == k2);
                        }
                    }
                }
            }
            i = i + 1;
        }
        self.held = kept;
        assert forall|k: Key| #[trigger] self.held@.to_set().contains(k) <==> old(self)@.remove(key).contains(k) by {
            if old(self)@.contains(k) && k != key {
                let j = choose|j: int| 0 <= j < held.len() && held[j] == k;
                assert(0 <= j < held.len() && held[j] == k);
            }
        }
        assert(self.held@.to_set() =~= old(self)@.remove(key));
    }
}

} // verus!

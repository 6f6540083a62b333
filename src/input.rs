use vstd::prelude::*;

verus! {

/// A physical key, as far as the viewer's rules tell keys apart.
#[derive(Clone, Copy, Debug, PartialEq, Eq, Structural)]
pub enum Key {
    W,
    A,
    S,
    D,
    Space,
    ShiftLeft,
    F,
    Other(u32),
}

/// Mouse buttons and whether the pointer moved this frame.
#[derive(Clone, Copy, Debug, PartialEq, Eq, Structural)]
pub struct MouseState {
    pub is_left_clicked: bool,
    pub is_middle_clicked: bool,
    pub is_right_clicked: bool,
    /// The frame-over-frame pointer delta is non-zero.
    pub has_position_delta: bool,
}

/// Whether a touch pointer moved this frame.
#[derive(Clone, Copy, Debug, PartialEq, Eq, Structural)]
pub struct TouchState {
    pub moved: bool,
}

/// The input state folded from platform events, as the camera rules read it.
#[derive(Debug)]
pub struct Io {
    pub keys: Vec<Key>,
    pub mouse: MouseState,
    pub touch: TouchState,
}

impl Io {
    /// Key `k` is held down.
    pub open spec fn pressed(self, k: Key) -> bool {
        self.keys@.contains(k)
    }

    /// No key held, no button down, no pointer or touch motion.
    pub open spec fn is_idle(self) -> bool {
        &&& self.keys@.len() == 0
        &&& !self.mouse.is_left_clicked
        &&& !self.mouse.is_middle_clicked
        &&& !self.mouse.is_right_clicked
        &&& !self.mouse.has_position_delta
        &&& !self.touch.moved
    }

    /// An input state with nothing pressed and nothing moving.
    pub fn new() -> (r: Io)
        ensures
            r.is_idle(),
    {
        Io {
            keys: Vec::new(),
            mouse: MouseState {
                is_left_clicked: false,
                is_middle_clicked: false,
                is_right_clicked: false,
                has_position_delta: false,
            },
            touch: TouchState { moved: false },
        }
    }

    /// Whether `key` is held down.
    pub fn is_key_pressed(&self, key: Key) -> (r: bool)
        ensures
            r == self.pressed(key),
    {
        let mut i: usize = 0;
        while i < self.keys.len()
            invariant
                0 <= i <= self.keys@.len(),
                forall|j: int| 0 <= j < i ==> self.keys@[j] != key,
            decreases self.keys@.len() - i,
        {
            if self.keys[i] == key {
                return true;
            }
            i = i + 1;
        }
        false
    }

    /// Records that `key` went down.
    pub fn press_key(&mut self, key: Key)
        ensures
            forall|k: Key| #[trigger] final(self).pressed(k) == (k == key || old(self).pressed(k)),
            final(self).mouse == old(self).mouse,
            final(self).touch == old(self).touch,
    {
        if !self.is_key_pressed(key) {
            self.keys.push(key);
            assert(self.keys@.last() == key);
            assert forall|k: Key| #[trigger] self.pressed(k) == (k == key || old(self).pressed(k)) by {
                if old(self).pressed(k) {
                    let j = choose|j: int| 0 <= j < old(self).keys@.len() && old(self).keys@[j] == k;
                    assert(self.keys@[j] == k);
                }
                if k == key {
                    assert(self.keys@[self.keys@.len() - 1] == k);
                }
                if self.pressed(k) && k != key {
                    let j = choose|j: int| 0 <= j < self.keys@.len() && self.keys@[j] == k;
                    assert(old(self).keys@[j] == k);
                }
            }
        }
    }

    /// Records that `key` went up.
    pub fn release_key(&mut self, key: Key)
        ensures
            forall|k: Key| #[trigger] final(self).pressed(k) == (k != key && old(self).pressed(k)),
            final(self).mouse == old(self).mouse,
            final(self).touch == old(self).touch,
    {
        let mut kept: Vec<Key> = Vec::new();
        let mut i: usize = 0;
        while i < self.keys.len()
            invariant
                0 <= i <= self.keys@.len(),
                forall|k: Key| #[trigger] kept@.contains(k) == (k != key && self.keys@.subrange(0, i as int).contains(k)),
            decreases self.keys@.len() - i,
        {
            let k = self.keys[i];
            assert(self.keys@.subrange(0, i + 1) == self.keys@.subrange(0, i as int).push(k));
            if k != key {
                let ghost prev = kept@;
                kept.push(k);
                assert(kept@ == prev.push(k));
                assert forall|k2: Key| #[trigger] kept@.contains(k2) == (k2 != key && self.keys@.subrange(0, i + 1).contains(k2)) by {
                    let sub0 = self.keys@.subrange(0, i as int);
                    let sub1 = self.keys@.subrange(0, i + 1);
                    if kept@.contains(k2) && k2 != k {
                        let j = choose|j: int| 0 <= j < kept@.len() && #[trigger] kept@[j] == k2;
                        assert(prev[j] == k2);
                        assert(prev.contains(k2));
                        let j2 = choose|j2: int| 0 <= j2 < sub0.len() && #[trigger] sub0[j2] == k2;
                        assert(sub1[j2] == k2);
                    }
                    if k2 != key && sub1.contains(k2) && k2 != k {
                        let j = choose|j: int| 0 <= j < sub1.len() && #[trigger] sub1[j] == k2;
                        assert(sub0[j] == k2);
                        assert(prev.contains(k2));
                        let j2 = choose|j2: int| 0 <= j2 < prev.len() && #[trigger] prev[j2] == k2;
                        assert(kept@[j2] == k2);
                    }
                    if k2 == k {
                        assert(kept@[kept@.len() - 1] == k2);
                        assert(sub1[i as int] == k2);
                    }
                }
            } else {
                assert forall|k2: Key| #[trigger] kept@.contains(k2) == (k2 != key && self.keys@.subrange(0, i + 1).contains(k2)) by {
                    let sub0 = self.keys@.subrange(0, i as int);
                    let sub1 = self.keys@.subrange(0, i + 1);
                    if k2 != key && sub1.contains(k2) {
                        let j = choose|j: int| 0 <= j < sub1.len() && #[trigger] sub1[j] == k2;
                        assert(sub0[j] == k2);
                    }
                    if sub0.contains(k2) {
                        let j = choose|j: int| 0 <= j < sub0.len() && #[trigger] sub0[j] == k2;
                        assert(sub1[j] == k2);
                    }
                }
            }
            i = i + 1;
        }
        assert(self.keys@.subrange(0, self.keys@.len() as int) == self.keys@);
        self.keys = kept;
    }
}

} // verus!

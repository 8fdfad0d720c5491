use vstd::prelude::*;

verus! {

/// Logical keys, after physical keys have been mapped to them.
#[derive(Copy, Clone, Debug, PartialEq, Eq, Structural)]
pub enum Key {
    NoKey,
    Left,
    Right,
    Up,
    Down,
    A,
    B,
    X,
    Pause,
    ZoomIn,
    ZoomOut,
    Save,
    PrevMap,
    Restart,
    NextMap,
}

impl Key {
    /// The key's number: keys are numbered from 0 in the order in which
    /// they are listed.
    pub open spec fn code(self) -> nat {
        match self {
            Key::NoKey => 0,
            Key::Left => 1,
            Key::Right => 2,
            Key::Up => 3,
            Key::Down => 4,
            Key::A => 5,
            Key::B => 6,
            Key::X => 7,
            Key::Pause => 8,
            Key::ZoomIn => 9,
            Key::ZoomOut => 10,
            Key::Save => 11,
            Key::PrevMap => 12,
            Key::Restart => 13,
            Key::NextMap => 14,
        }
    }

    /// Whether the key is one of the eight whose state is followed: the keys
    /// for moving and jumping, which must be timed precisely.
    pub open spec fn timed(self) -> bool {
        self.code() < 8
    }

    /// The key's number.
    pub fn number(self) -> (n: usize)
        ensures
            n == self.code(),
    {
        match self {
            Key::NoKey => 0,
            Key::Left => 1,
            Key::Right => 2,
            Key::Up => 3,
            Key::Down => 4,
            Key::A => 5,
            Key::B => 6,
            Key::X => 7,
            Key::Pause => 8,
            Key::ZoomIn => 9,
            Key::ZoomOut => 10,
            Key::Save => 11,
            Key::PrevMap => 12,
            Key::Restart => 13,
            Key::NextMap => 14,
        }
    }
}

/// The logical key for the key of the keyboard with code `sdl_key`, as SDL
/// numbers the keys: the arrows, and the letters that stand in for them
/// under either hand, move; space jumps; and a few keys steer the program.
pub open spec fn key_for(sdl_key: int) -> Key {
    if sdl_key == 1073741904 || sdl_key == 115 || sdl_key == 106 {
        Key::Left
    } else if sdl_key == 1073741903 || sdl_key == 102 || sdl_key == 108 {
        Key::Right
    } else if sdl_key == 1073741906 || sdl_key == 101 || sdl_key == 105 {
        Key::Up
    } else if sdl_key == 1073741905 || sdl_key == 100 || sdl_key == 107 {
        Key::Down
    } else if sdl_key == 32 {
        Key::A
    } else if sdl_key == 1073742050 || sdl_key == 1073742054 {
        Key::B
    } else if sdl_key == 61 {
        Key::ZoomIn
    } else if sdl_key == 45 {
        Key::ZoomOut
    } else if sdl_key == 112 {
        Key::Pause
    } else if sdl_key == 119 {
        Key::Save
    } else if sdl_key == 110 {
        Key::NextMap
    } else if sdl_key == 109 {
        Key::PrevMap
    } else if sdl_key == 114 {
        Key::Restart
    } else {
        Key::NoKey
    }
}

/// The logical key for the key of the keyboard with code `sdl_key`.
pub fn keymap(sdl_key: i32) -> (k: Key)
    ensures
        k == key_for(sdl_key as int),
{
    match sdl_key {
        1073741904 => Key::Left,
        115 => Key::Left,
        106 => Key::Left,
        1073741903 => Key::Right,
        102 => Key::Right,
        108 => Key::Right,
        1073741906 => Key::Up,
        101 => Key::Up,
        105 => Key::Up,
        1073741905 => Key::Down,
        100 => Key::Down,
        107 => Key::Down,
        32 => Key::A,
        1073742050 => Key::B,
        1073742054 => Key::B,
        61 => Key::ZoomIn,
        45 => Key::ZoomOut,
        112 => Key::Pause,
        119 => Key::Save,
        110 => Key::NextMap,
        109 => Key::PrevMap,
        114 => Key::Restart,
        _ => Key::NoKey,
    }
}

/// Which of the eight timed keys are pressed down.
#[derive(Copy, Clone, Debug)]
pub struct KeyStates {
    down: [bool; 8],
}

impl KeyStates {
    /// Whether timed key number `i` is down.
    pub closed spec fn down(&self, i: int) -> bool {
        self.down[i]
    }

    /// Whether `k` is currently pressed down.
    pub fn is_down(&self, k: Key) -> (d: bool)
        requires
            k.timed(),
        ensures
            d == self.down(k.code() as int),
    {
        self.down[k.number()]
    }

    /// The state in which no key is down.
    pub fn new() -> (s: KeyStates)
        ensures
            forall|i: int| 0 <= i < 8 ==> !s.down(i),
    {
        KeyStates { down: [false;8] }
    }

    /// Records `k` as down or up. A key that is not timed changes nothing.
    pub fn set_down(&mut self, k: Key, down: bool)
        ensures
            forall|i: int|
                0 <= i < 8 ==> final(self).down(i) == if i == k.code() {
                    down
                } else {
                    old(self).down(i)
                },
    {
        let k = k.number();
        if k < 8 {
            self.down[k] = down;
        }
    }

    /// The state in which a key is down if it is down in this state or in `b`.
    #[must_use]
    pub fn merge(self, b: KeyStates) -> (s: KeyStates)
        ensures
            forall|i: int| 0 <= i < 8 ==> s.down(i) == (self.down(i) || b.down(i)),
    {
        let mut down = [false;8];
        let mut i: usize = 0;
        while i < 8
            invariant
                i <= 8,
                forall|j: int| 0 <= j < i ==> down[j] == (self.down(j) || b.down(j)),
            decreases 8 - i,
        {
            down[i] = self.down[i] || b.down[i];
            i += 1;
        }
        KeyStates { down }
    }

    /// Forgets every key.
    pub fn clear(&mut self)
        ensures
            forall|i: int| 0 <= i < 8 ==> !final(self).down(i),
    {
        self.down = [false;8];
    }
}

/// Keeps a key press that was shorter than one tick from getting lost: a key
/// counts as down if it is down now or was pressed since the last `clear`.
pub struct KeyDebouncer {
    current: KeyStates,
    debounced: KeyStates,
}

impl KeyDebouncer {
    /// Whether timed key number `i` is held down now.
    pub closed spec fn held(&self, i: int) -> bool {
        self.current.down(i)
    }

    /// Whether timed key number `i` was pressed since the last `clear`.
    pub closed spec fn pressed(&self, i: int) -> bool {
        self.debounced.down(i)
    }

    pub fn new() -> (d: Self)
        ensures
            forall|i: int| 0 <= i < 8 ==> !d.held(i) && !d.pressed(i),
    {
        KeyDebouncer { current: KeyStates::new(), debounced: KeyStates::new() }
    }

    /// Records that `k` was pressed.
    pub fn key_down(&mut self, k: Key)
        ensures
            forall|i: int|
                0 <= i < 8 ==> final(self).held(i) == (i == k.code() || old(self).held(i))
                    && final(self).pressed(i) == (i == k.code() || old(self).pressed(i)),
    {
        self.current.set_down(k, true);
        self.debounced.set_down(k, true);
    }

    /// Records that `k` was released.
    pub fn key_up(&mut self, k: Key)
        ensures
            forall|i: int|
                0 <= i < 8 ==> final(self).held(i) == (i != k.code() && old(self).held(i))
                    && final(self).pressed(i) == old(self).pressed(i),
    {
        self.current.set_down(k, false);
    }

    /// The keys that are down now or were pressed since the last `clear`.
    pub fn key_states(&self) -> (s: KeyStates)
        ensures
            forall|i: int| 0 <= i < 8 ==> s.down(i) == (self.held(i) || self.pressed(i)),
    {
        self.current.merge(self.debounced)
    }

    /// Forgets the keys that were pressed and are no longer held. To be
    /// called once `key_states` has been used.
    pub fn clear(&mut self)
        ensures
            forall|i: int|
                0 <= i < 8 ==> final(self).held(i) == old(self).held(i) && !final(self).pressed(i),
    {
        self.debounced.clear();
    }
}

} // verus!

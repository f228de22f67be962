use vstd::prelude::*;

verus! {

/// Number of logical keys.
pub const KEY_COUNT: usize = 16;

/// The sixteen logical keys, `0` to `F`.
#[derive(Clone, Copy, Debug, PartialEq, Eq, Structural, Hash)]
pub enum Key {
    Key0,
    Key1,
    Key2,
    Key3,
    Key4,
    Key5,
    Key6,
    Key7,
    Key8,
    Key9,
    KeyA,
    KeyB,
    KeyC,
    KeyD,
    KeyE,
    KeyF,
}

impl Key {
    /// The key's hex value.
    pub open spec fn spec_index(self) -> u8 {
        match self {
            Key::Key0 => 0,
            Key::Key1 => 1,
            Key::Key2 => 2,
            Key::Key3 => 3,
            Key::Key4 => 4,
            Key::Key5 => 5,
            Key::Key6 => 6,
            Key::Key7 => 7,
            Key::Key8 => 8,
            Key::Key9 => 9,
            Key::KeyA => 10,
            Key::KeyB => 11,
            Key::KeyC => 12,
            Key::KeyD => 13,
            Key::KeyE => 14,
            Key::KeyF => 15,
        }
    }

    pub fn index(&self) -> (r: u8)
        ensures
            r == self.spec_index(),
            r < 16,
    {
        match self {
            Key::Key0 => 0,
            Key::Key1 => 1,
            Key::Key2 => 2,
            Key::Key3 => 3,
            Key::Key4 => 4,
            Key::Key5 => 5,
            Key::Key6 => 6,
            Key::Key7 => 7,
            Key::Key8 => 8,
            Key::Key9 => 9,
            Key::KeyA => 10,
            Key::KeyB => 11,
            Key::KeyC => 12,
            Key::KeyD => 13,
            Key::KeyE => 14,
            Key::KeyF => 15,
        }
    }
}

/// Whether logical key `key` is down; values of 16 and above name no key.
pub open spec fn key_down(keys: Seq<bool>, key: int) -> bool {
    0 <= key < 16 && keys[key]
}

/// The lowest key at or above `from` that is down.
pub open spec fn first_down_from(keys: Seq<bool>, from: int) -> Option<u8>
    decreases 16 - from,
{
    if from >= 16 || from < 0 {
        None
    } else if keys[from] {
        Some(from as u8)
    } else {
        first_down_from(keys, from + 1)
    }
}

/// The lowest key that is down, if any.
pub open spec fn first_down(keys: Seq<bool>) -> Option<u8> {
    first_down_from(keys, 0)
}

/// The keypad: which of the sixteen logical keys are held down.
pub struct Keyboard {
    keys: Vec<bool>,
}

impl Keyboard {
    #[verifier::type_invariant]
    spec fn well_formed(self) -> bool {
        self.keys@.len() == KEY_COUNT
    }

    pub closed spec fn view(&self) -> Seq<bool> {
        self.keys@
    }

    /// A keypad with no key down.
    pub fn new() -> (r: Keyboard)
        ensures
            r@ == Seq::new(16, |k: int| false),
    {
        let mut keys: Vec<bool> = Vec::new();
        let mut k: usize = 0;
        while k < KEY_COUNT
            invariant
                k <= KEY_COUNT,
                keys@.len() == k,
                forall|j: int| 0 <= j < k ==> keys@[j] == false,
            decreases KEY_COUNT - k,
        {
            keys.push(false);
            k = k + 1;
        }
        let r = Keyboard { keys };
        assert(r@ =~= Seq::new(16, |k: int| false));
        r
    }

    /// Whether key `key` is down; a value of 16 or more names no key and is
    /// never down.
    pub fn is_pressed(&self, key: u8) -> (r: bool)
        ensures
            r == key_down(self@, key as int),
    {
        proof {
            use_type_invariant(self);
        }
        if key as usize >= KEY_COUNT {
            false
        } else {
            self.keys[key as usize]
        }
    }

    pub fn press_key(&mut self, key: Key)
        ensures
            final(self)@ == old(self)@.update(key.spec_index() as int, true),
    {
        proof {
            use_type_invariant(&*self);
        }
        let k = key.index();
        self.keys[k as usize] = true;
    }

    pub fn release_key(&mut self, key: Key)
        ensures
            final(self)@ == old(self)@.update(key.spec_index() as int, false),
    {
        proof {
            use_type_invariant(&*self);
        }
        let k = key.index();
        self.keys[k as usize] = false;
    }

    /// The lowest key that is down, if any.
    pub fn first_pressed(&self) -> (r: Option<u8>)
        ensures
            r == first_down(self@),
    {
        proof {
            use_type_invariant(self);
        }
        let mut k: usize = KEY_COUNT;
        let mut found: Option<u8> = None;
        while k > 0
            invariant
                k <= KEY_COUNT,
                self.keys@.len() == KEY_COUNT,
                found == first_down_from(self@, k as int),
            decreases k,
        {
            k = k - 1;
            if self.keys[k] {
                found = Some(k as u8);
            }
        }
        found
    }
}

} // verus!

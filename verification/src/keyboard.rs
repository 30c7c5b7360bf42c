//! The 16-key hexadecimal keypad and its place on a host keyboard.
//!
//! The keypad is laid out in four rows, `123C`, `456D`, `789E` and `A0BF`.
//! On the host keyboard the block `1234`, `QWER`, `ASDF`, `ZXCV` stands
//! for it, key by key.

use vstd::prelude::*;

verus! {

/// A key of the host keyboard: the sixteen that stand for the keypad, the
/// escape key, and one value for every other key.
#[derive(Clone, Copy, Debug, PartialEq, Eq, Structural)]
pub enum Key {
    Key1,
    Key2,
    Key3,
    Key4,
    Q,
    W,
    E,
    R,
    A,
    S,
    D,
    F,
    Z,
    X,
    C,
    V,
    Escape,
    Other,
}

/// The keys of the keypad, row by row.
#[derive(Clone, Copy, Debug, PartialEq, Eq, Structural)]
pub enum VKeys {
    Key1,
    Key2,
    Key3,
    KeyC,
    Key4,
    Key5,
    Key6,
    KeyD,
    Key7,
    Key8,
    Key9,
    KeyE,
    KeyA,
    Key0,
    KeyB,
    KeyF,
}

/// The keypad key that a host key stands for, if it stands for one.
pub open spec fn keypad_key(key: Key) -> Option<VKeys> {
    match key {
        Key::Key1 => Some(VKeys::Key1),
        Key::Key2 => Some(VKeys::Key2),
        Key::Key3 => Some(VKeys::Key3),
        Key::Key4 => Some(VKeys::KeyC),
        Key::Q => Some(VKeys::Key4),
        Key::W => Some(VKeys::Key5),
        Key::E => Some(VKeys::Key6),
        Key::R => Some(VKeys::KeyD),
        Key::A => Some(VKeys::Key7),
        Key::S => Some(VKeys::Key8),
        Key::D => Some(VKeys::Key9),
        Key::F => Some(VKeys::KeyE),
        Key::Z => Some(VKeys::KeyA),
        Key::X => Some(VKeys::Key0),
        Key::C => Some(VKeys::KeyB),
        Key::V => Some(VKeys::KeyF),
        Key::Escape | Key::Other => None,
    }
}

/// The keypad key with the number `n`.
pub open spec fn key_of_number(n: int) -> VKeys {
    if n == 0x0 {
        VKeys::Key0
    } else if n == 0x1 {
        VKeys::Key1
    } else if n == 0x2 {
        VKeys::Key2
    } else if n == 0x3 {
        VKeys::Key3
    } else if n == 0x4 {
        VKeys::Key4
    } else if n == 0x5 {
        VKeys::Key5
    } else if n == 0x6 {
        VKeys::Key6
    } else if n == 0x7 {
        VKeys::Key7
    } else if n == 0x8 {
        VKeys::Key8
    } else if n == 0x9 {
        VKeys::Key9
    } else if n == 0xA {
        VKeys::KeyA
    } else if n == 0xB {
        VKeys::KeyB
    } else if n == 0xC {
        VKeys::KeyC
    } else if n == 0xD {
        VKeys::KeyD
    } else if n == 0xE {
        VKeys::KeyE
    } else {
        VKeys::KeyF
    }
}

impl VKeys {
    /// The hexadecimal digit on the key.
    pub open spec fn number(self) -> int {
        match self {
            VKeys::Key0 => 0x0,
            VKeys::Key1 => 0x1,
            VKeys::Key2 => 0x2,
            VKeys::Key3 => 0x3,
            VKeys::Key4 => 0x4,
            VKeys::Key5 => 0x5,
            VKeys::Key6 => 0x6,
            VKeys::Key7 => 0x7,
            VKeys::Key8 => 0x8,
            VKeys::Key9 => 0x9,
            VKeys::KeyA => 0xA,
            VKeys::KeyB => 0xB,
            VKeys::KeyC => 0xC,
            VKeys::KeyD => 0xD,
            VKeys::KeyE => 0xE,
            VKeys::KeyF => 0xF,
        }
    }

    /// The place of the key on the keypad, counted row by row from 0.
    pub open spec fn slot(self) -> int {
        match self {
            VKeys::Key1 => 0,
            VKeys::Key2 => 1,
            VKeys::Key3 => 2,
            VKeys::KeyC => 3,
            VKeys::Key4 => 4,
            VKeys::Key5 => 5,
            VKeys::Key6 => 6,
            VKeys::KeyD => 7,
            VKeys::Key7 => 8,
            VKeys::Key8 => 9,
            VKeys::Key9 => 10,
            VKeys::KeyE => 11,
            VKeys::KeyA => 12,
            VKeys::Key0 => 13,
            VKeys::KeyB => 14,
            VKeys::KeyF => 15,
        }
    }

    /// The key with the number `n`.
    pub fn from_num(n: u8) -> (key: Self)
        requires
            n <= 0xF,
        ensures
            key == key_of_number(n as int),
            key.number() == n,
    {
        match n {
            0x0 => VKeys::Key0,
            0x1 => VKeys::Key1,
            0x2 => VKeys::Key2,
            0x3 => VKeys::Key3,
            0x4 => VKeys::Key4,
            0x5 => VKeys::Key5,
            0x6 => VKeys::Key6,
            0x7 => VKeys::Key7,
            0x8 => VKeys::Key8,
            0x9 => VKeys::Key9,
            0xA => VKeys::KeyA,
            0xB => VKeys::KeyB,
            0xC => VKeys::KeyC,
            0xD => VKeys::KeyD,
            0xE => VKeys::KeyE,
            _ => VKeys::KeyF,
        }
    }

    fn index(self) -> (slot: usize)
        ensures
            slot == self.slot(),
    {
        match self {
            VKeys::Key1 => 0,
            VKeys::Key2 => 1,
            VKeys::Key3 => 2,
            VKeys::KeyC => 3,
            VKeys::Key4 => 4,
            VKeys::Key5 => 5,
            VKeys::Key6 => 6,
            VKeys::KeyD => 7,
            VKeys::Key7 => 8,
            VKeys::Key8 => 9,
            VKeys::Key9 => 10,
            VKeys::KeyE => 11,
            VKeys::KeyA => 12,
            VKeys::Key0 => 13,
            VKeys::KeyB => 14,
            VKeys::KeyF => 15,
        }
    }
}

/// Which keys of the keypad are down.
pub struct Keyboard {
    keys: [bool; 16],
}

impl View for Keyboard {
    type V = Seq<bool>;

    /// For each key number 0 to 15, whether that key is down.
    closed spec fn view(&self) -> Seq<bool> {
        Seq::new(16, |n: int| self.keys@[key_of_number(n).slot()])
    }
}

/// The lowest number from `from` up whose key is down in `keys`, if there
/// is one.
pub open spec fn first_down_from(keys: Seq<bool>, from: int) -> Option<u8>
    decreases 16 - from,
{
    if from < 0 || from >= 16 {
        None
    } else if keys[from] {
        Some(from as u8)
    } else {
        first_down_from(keys, from + 1)
    }
}

/// The lowest number whose key is down in `keys`, if any key is down.
pub open spec fn first_down(keys: Seq<bool>) -> Option<u8> {
    first_down_from(keys, 0)
}

/// `first_down_from` finds the lowest key that is down, and finds none only
/// if every key from `from` up is up.
pub proof fn lemma_first_down_from(keys: Seq<bool>, from: int)
    requires
        0 <= from <= 16,
    ensures
        match first_down_from(keys, from) {
            Some(n) => from <= n < 16 && keys[n as int] && forall|m: int|
                from <= m < n ==> !#[trigger] keys[m],
            None => forall|m: int| from <= m < 16 ==> !#[trigger] keys[m],
        },
    decreases 16 - from,
{
    if from < 16 && !keys[from] {
        lemma_first_down_from(keys, from + 1);
    }
}

impl Keyboard {
    /// A keypad has sixteen keys.
    pub proof fn lemma_len(&self)
        ensures
            self@.len() == 16,
    {
    }

    /// A keypad with every key up.
    pub fn new() -> (keyboard: Self)
        ensures
            keyboard@ == Seq::new(16, |n: int| false),
    {
        let keyboard = Self { keys: [false;16] };
        assert(keyboard@ =~= Seq::new(16, |n: int| false));
        keyboard
    }

    /// Lets every key up.
    pub fn reset(&mut self)
        ensures
            final(self)@ == Seq::new(16, |n: int| false),
    {
        self.keys = [false;16];
        assert(self@ =~= Seq::new(16, |n: int| false));
    }

    /// Notes that a host key is down. A key that stands for no keypad key
    /// changes nothing.
    pub fn update_key(&mut self, key: &Key)
        ensures
            final(self)@ == match keypad_key(*key) {
                Some(vkey) => old(self)@.update(vkey.number(), true),
                None => old(self)@,
            },
    {
        match key {
            Key::Key1 => self.press(VKeys::Key1),
            Key::Key2 => self.press(VKeys::Key2),
            Key::Key3 => self.press(VKeys::Key3),
            Key::Key4 => self.press(VKeys::KeyC),
            Key::Q => self.press(VKeys::Key4),
            Key::W => self.press(VKeys::Key5),
            Key::E => self.press(VKeys::Key6),
            Key::R => self.press(VKeys::KeyD),
            Key::A => self.press(VKeys::Key7),
            Key::S => self.press(VKeys::Key8),
            Key::D => self.press(VKeys::Key9),
            Key::F => self.press(VKeys::KeyE),
            Key::Z => self.press(VKeys::KeyA),
            Key::X => self.press(VKeys::Key0),
            Key::C => self.press(VKeys::KeyB),
            Key::V => self.press(VKeys::KeyF),
            _ => (),
        }
    }

    fn press(&mut self, key: VKeys)
        ensures
            final(self)@ == old(self)@.update(key.number(), true),
    {
        self.keys[key.index()] = true;
        assert(self@ =~= old(self)@.update(key.number(), true));
    }

    pub fn get_key_status_from_vkey(&mut self, key: VKeys) -> (down: bool)
        ensures
            down == old(self)@[key.number()],
            final(self)@ == old(self)@,
    {
        self.is_down(key)
    }

    pub fn get_key_status_from_num(&mut self, n: u8) -> (down: bool)
        requires
            n <= 0xF,
        ensures
            down == old(self)@[n as int],
            final(self)@ == old(self)@,
    {
        self.get_key_status_from_vkey(VKeys::from_num(n))
    }

    fn is_down(&self, key: VKeys) -> (down: bool)
        ensures
            down == self@[key.number()],
    {
        self.keys[key.index()]
    }

    /// The number of the keypad key that a host key stands for.
    pub fn key_to_num(&self, key: Key) -> (num: Result<u8, ()>)
        ensures
            num == match keypad_key(key) {
                Some(vkey) => Ok::<u8, ()>(vkey.number() as u8),
                None => Err::<u8, ()>(()),
            },
    {
        match key {
            Key::Key1 => Ok(0x1),
            Key::Key2 => Ok(0x2),
            Key::Key3 => Ok(0x3),
            Key::Key4 => Ok(0xC),
            Key::Q => Ok(0x4),
            Key::W => Ok(0x5),
            Key::E => Ok(0x6),
            Key::R => Ok(0xD),
            Key::A => Ok(0x7),
            Key::S => Ok(0x8),
            Key::D => Ok(0x9),
            Key::F => Ok(0xE),
            Key::Z => Ok(0xA),
            Key::X => Ok(0x0),
            Key::C => Ok(0xB),
            Key::V => Ok(0xF),
            _ => Err(()),
        }
    }

    /// The lowest-numbered key that is down, if any key is.
    pub fn first_pressed(&self) -> (num: Option<u8>)
        ensures
            num == first_down(self@),
    {
        let mut n: u8 = 0;
        while n < 16
            invariant
                n <= 16,
                first_down(self@) == first_down_from(self@, n as int),
            decreases 16 - n,
        {
            if self.is_down(VKeys::from_num(n)) {
                return Some(n);
            }
            n += 1;
        }
        None
    }
}

} // verus!

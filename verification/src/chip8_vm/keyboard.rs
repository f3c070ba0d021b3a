use vstd::prelude::*;

verus! {

/// Number of keys on the pad.
pub const KEY_COUNT: usize = 16;

/// A key of the hexadecimal pad.
#[derive(Debug, Clone, Copy, PartialEq, Eq)]
pub enum Keycode {
    Num1,
    Num2,
    Num3,
    Num4,
    Num5,
    Num6,
    Num7,
    Num8,
    Num9,
    A,
    B,
    C,
    D,
    E,
    F,
    Num0,
}

impl Keycode {
    /// The 4-bit code of the key: its hexadecimal digit.
    pub open spec fn value(self) -> u8 {
        match self {
            Keycode::Num0 => 0x0,
            Keycode::Num1 => 0x1,
            Keycode::Num2 => 0x2,
            Keycode::Num3 => 0x3,
            Keycode::Num4 => 0x4,
            Keycode::Num5 => 0x5,
            Keycode::Num6 => 0x6,
            Keycode::Num7 => 0x7,
            Keycode::Num8 => 0x8,
            Keycode::Num9 => 0x9,
            Keycode::A => 0xA,
            Keycode::B => 0xB,
            Keycode::C => 0xC,
            Keycode::D => 0xD,
            Keycode::E => 0xE,
            Keycode::F => 0xF,
        }
    }

    /// The key's 4-bit code, as the keypad indexes it.
    pub fn code(self) -> (code: u8)
        ensures
            code == self.value(),
            code < KEY_COUNT,
    {
        match self {
            Keycode::Num0 => 0x0,
            Keycode::Num1 => 0x1,
            Keycode::Num2 => 0x2,
            Keycode::Num3 => 0x3,
            Keycode::Num4 => 0x4,
            Keycode::Num5 => 0x5,
            Keycode::Num6 => 0x6,
            Keycode::Num7 => 0x7,
            Keycode::Num8 => 0x8,
            Keycode::Num9 => 0x9,
            Keycode::A => 0xA,
            Keycode::B => 0xB,
            Keycode::C => 0xC,
            Keycode::D => 0xD,
            Keycode::E => 0xE,
            Keycode::F => 0xF,
        }
    }
}

/// The pad key that a host key stands for, the host key given by its character
/// code. The left-hand block `1234 / qwer / asdf / zxcv` lies over the pad's
/// `123C / 456D / 789E / A0BF`; every other host key counts as key 0.
pub open spec fn host_key_meaning(key: i32) -> Keycode {
    if key == 0x31 {
        Keycode::Num1
    } else if key == 0x32 {
        Keycode::Num2
    } else if key == 0x33 {
        Keycode::Num3
    } else if key == 0x34 {
        Keycode::C
    } else if key == 0x71 {
        Keycode::Num4
    } else if key == 0x77 {
        Keycode::Num5
    } else if key == 0x65 {
        Keycode::Num6
    } else if key == 0x72 {
        Keycode::D
    } else if key == 0x61 {
        Keycode::Num7
    } else if key == 0x73 {
        Keycode::Num8
    } else if key == 0x64 {
        Keycode::Num9
    } else if key == 0x66 {
        Keycode::E
    } else if key == 0x7A {
        Keycode::A
    } else if key == 0x78 {
        Keycode::Num0
    } else if key == 0x63 {
        Keycode::B
    } else if key == 0x76 {
        Keycode::F
    } else {
        Keycode::Num0
    }
}

/// The pad key that the host key with character code `key` stands for.
pub fn to_chip8_keycode(key: i32) -> (code: Keycode)
    ensures
        code == host_key_meaning(key),
{
    match key {
        0x31 => Keycode::Num1,
        0x32 => Keycode::Num2,
        0x33 => Keycode::Num3,
        0x34 => Keycode::C,
        0x71 => Keycode::Num4,
        0x77 => Keycode::Num5,
        0x65 => Keycode::Num6,
        0x72 => Keycode::D,
        0x61 => Keycode::Num7,
        0x73 => Keycode::Num8,
        0x64 => Keycode::Num9,
        0x66 => Keycode::E,
        0x7A => Keycode::A,
        0x78 => Keycode::Num0,
        0x63 => Keycode::B,
        0x76 => Keycode::F,
        _ => Keycode::Num0,
    }
}

/// Sixteen level-sensitive key slots. A slot holds zero while its key is up
/// and whatever the host last wrote while it is down.
#[derive(Debug, Clone, Copy, PartialEq, Eq)]
pub struct Keypad {
    keypad: [u8; KEY_COUNT],
}

/// A pad with every key up.
pub open spec fn all_keys_up() -> Seq<u8> {
    Seq::new(KEY_COUNT as nat, |i: int| 0u8)
}

impl View for Keypad {
    type V = Seq<u8>;

    closed spec fn view(&self) -> Seq<u8> {
        self.keypad@
    }
}

impl Keypad {
    /// Every pad has exactly sixteen slots.
    pub proof fn lemma_key_count(&self)
        ensures
            self@.len() == KEY_COUNT,
    {
    }

    pub fn new() -> (keypad: Self)
        ensures
            keypad@ == all_keys_up(),
    {
        let keypad = Keypad { keypad: [0; KEY_COUNT] };
        assert(keypad@ =~= all_keys_up());
        keypad
    }

    pub fn reset(&mut self)
        ensures
            final(self)@ == all_keys_up(),
    {
        self.keypad = [0; KEY_COUNT];
        assert(self@ =~= all_keys_up());
    }

    pub fn set_key(&mut self, key: u8, value: u8)
        requires
            key < KEY_COUNT,
        ensures
            final(self)@ == old(self)@.update(key as int, value),
    {
        self.keypad[key as usize] = value;
    }

    pub fn get_key(&self, key: u8) -> (value: u8)
        requires
            key < KEY_COUNT,
        ensures
            value == self@[key as int],
    {
        self.keypad[key as usize]
    }

    pub fn len(&self) -> (count: usize)
        ensures
            count == KEY_COUNT,
            count == self@.len(),
    {
        self.keypad.len()
    }

    pub fn handle_input(&mut self, key: Keycode, value: u8)
        ensures
            final(self)@ == old(self)@.update(key.value() as int, value),
    {
        let index: u8 = key.code();
        self.keypad[index as usize] = value;
    }
}

} // verus!

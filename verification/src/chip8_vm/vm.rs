use vstd::prelude::*;

use super::display::{Display, SCREEN_HEIGHT, SCREEN_WIDTH};
use super::keyboard::{Keypad, KEY_COUNT};
use super::model::{
    arithmetic, blank_memory, blank_registers, decoded, field_n, field_nn, field_nnn, field_x,
    field_y, flag, from_memory, highest_key_down, with_digits, with_font, with_registers,
    with_rom, wrap8, Canvas, Machine, FLAG,
};
use super::stack::Stack;
use super::timers::Timers;
use crate::resources::FONTSET;

verus! {

pub const MEMORY_SIZE: usize = 4096;

pub const FONTSET_SIZE: usize = 80;

pub const NUM_REGISTERS: usize = 16;

pub const PROGRAM_START_ADDRESS: usize = 0x200;

/// Largest program that fits between the start address and the end of memory.
pub const MAX_ROM_SIZE: usize = 3584;

/// The register file: sixteen general 8-bit registers, of which the last is
/// also the flag, the index register and the program counter.
pub struct Registers {
    pub v: [u8; NUM_REGISTERS],
    pub i: u16,
    pub pc: u16,
}

/// Whether the machine is carrying out instructions.
#[derive(Debug, PartialEq, Eq, Copy, Clone, Structural)]
pub enum CpuState {
    Running,
    Halted,
}

/// What becomes of the program counter at the end of a cycle.
#[derive(Debug, PartialEq, Eq, Copy, Clone, Structural)]
pub enum ProgramCounterState {
    /// Go on with the following instruction.
    Next,
    /// Pass over the following instruction.
    Skip,
    /// Continue at the given address.
    Jump(u16),
    /// No cycle has run yet.
    Unknown,
}

/// Why a cycle could not run. Nothing recovers from one: the machine halts.
#[derive(Debug, PartialEq, Eq, Copy, Clone, Structural)]
pub enum Fault {
    /// The word at the program counter, which it carries, is no instruction.
    UnknownOpcode(u16),
    /// The program counter points outside memory, or at its last byte.
    ProgramCounterOutOfRange,
    /// The instruction would read or write memory behind its end.
    MemoryOutOfRange,
    /// The instruction would use a stack slot that does not exist.
    StackOutOfRange,
    /// The instruction names a key that the pad does not have.
    KeyOutOfRange,
}

/// The instructions of the machine, by name.
#[derive(Debug, PartialEq, Eq, Copy, Clone, Structural)]
pub enum Instructions {
    ClearScreen,
    Return,
    Jump,
    Call,
    SkipIfEqual,
    SkipIfNotEqual,
    SkipIfVxEqualVy,
    SetVx,
    AddVx,
    SetVxVy,
    SetVxOrVy,
    SetVxAndVy,
    SetVxXorVy,
    AddVxVy,
    SubVxVy,
    ShiftRight,
    SubVyVx,
    ShiftLeft,
    SkipIfVxNotVy,
    SetI,
    JumpV0,
    Random,
    Draw,
    SkipIfPressed,
    SkipIfNotPressed,
    SetVxToDelayTimer,
    WaitForKeyPress,
    SetDelayTimer,
    SetSoundTimer,
    AddVxToI,
    SetIToSprite,
    StoreBCD,
    StoreRegisters,
    LoadRegisters,
    Unknown,
}

impl Instructions {
    /// The instruction word that stands for the instruction when every
    /// operand is zero; for `Unknown`, a word that stands for none.
    pub open spec fn pattern(self) -> u16 {
        match self {
            Instructions::ClearScreen => 0x0000,
            Instructions::Return => 0x000E,
            Instructions::Jump => 0x1000,
            Instructions::Call => 0x2000,
            Instructions::SkipIfEqual => 0x3000,
            Instructions::SkipIfNotEqual => 0x4000,
            Instructions::SkipIfVxEqualVy => 0x5000,
            Instructions::SetVx => 0x6000,
            Instructions::AddVx => 0x7000,
            Instructions::SetVxVy => 0x8000,
            Instructions::SetVxOrVy => 0x8001,
            Instructions::SetVxAndVy => 0x8002,
            Instructions::SetVxXorVy => 0x8003,
            Instructions::AddVxVy => 0x8004,
            Instructions::SubVxVy => 0x8005,
            Instructions::ShiftRight => 0x8006,
            Instructions::SubVyVx => 0x8007,
            Instructions::ShiftLeft => 0x800E,
            Instructions::SkipIfVxNotVy => 0x9000,
            Instructions::SetI => 0xA000,
            Instructions::JumpV0 => 0xB000,
            Instructions::Random => 0xC000,
            Instructions::Draw => 0xD000,
            Instructions::SkipIfPressed => 0xE09E,
            Instructions::SkipIfNotPressed => 0xE0A1,
            Instructions::SetVxToDelayTimer => 0xF007,
            Instructions::WaitForKeyPress => 0xF00A,
            Instructions::SetDelayTimer => 0xF015,
            Instructions::SetSoundTimer => 0xF018,
            Instructions::AddVxToI => 0xF01E,
            Instructions::SetIToSprite => 0xF029,
            Instructions::StoreBCD => 0xF033,
            Instructions::StoreRegisters => 0xF055,
            Instructions::LoadRegisters => 0xF065,
            Instructions::Unknown => 0xFFFF,
        }
    }

    /// The instruction's word with every operand zero.
    pub fn code(self) -> (code: u16)
        ensures
            code == self.pattern(),
    {
        match self {
            Instructions::ClearScreen => 0x0000,
            Instructions::Return => 0x000E,
            Instructions::Jump => 0x1000,
            Instructions::Call => 0x2000,
            Instructions::SkipIfEqual => 0x3000,
            Instructions::SkipIfNotEqual => 0x4000,
            Instructions::SkipIfVxEqualVy => 0x5000,
            Instructions::SetVx => 0x6000,
            Instructions::AddVx => 0x7000,
            Instructions::SetVxVy => 0x8000,
            Instructions::SetVxOrVy => 0x8001,
            Instructions::SetVxAndVy => 0x8002,
            Instructions::SetVxXorVy => 0x8003,
            Instructions::AddVxVy => 0x8004,
            Instructions::SubVxVy => 0x8005,
            Instructions::ShiftRight => 0x8006,
            Instructions::SubVyVx => 0x8007,
            Instructions::ShiftLeft => 0x800E,
            Instructions::SkipIfVxNotVy => 0x9000,
            Instructions::SetI => 0xA000,
            Instructions::JumpV0 => 0xB000,
            Instructions::Random => 0xC000,
            Instructions::Draw => 0xD000,
            Instructions::SkipIfPressed => 0xE09E,
            Instructions::SkipIfNotPressed => 0xE0A1,
            Instructions::SetVxToDelayTimer => 0xF007,
            Instructions::WaitForKeyPress => 0xF00A,
            Instructions::SetDelayTimer => 0xF015,
            Instructions::SetSoundTimer => 0xF018,
            Instructions::AddVxToI => 0xF01E,
            Instructions::SetIToSprite => 0xF029,
            Instructions::StoreBCD => 0xF033,
            Instructions::StoreRegisters => 0xF055,
            Instructions::LoadRegisters => 0xF065,
            Instructions::Unknown => 0xFFFF,
        }
    }
}

/// The operands that an instruction word may carry.
pub struct Operands {
    pub x: usize,
    pub y: usize,
    pub n: u8,
    pub nn: u8,
    pub nnn: u16,
}

/// Takes an instruction word apart into its operand fields.
pub fn operands(opcode: u16) -> (fields: Operands)
    ensures
        fields.x == field_x(opcode),
        fields.y == field_y(opcode),
        fields.n == field_n(opcode),
        fields.nn == field_nn(opcode),
        fields.nnn == field_nnn(opcode),
        fields.x < NUM_REGISTERS,
        fields.y < NUM_REGISTERS,
        fields.n < 16,
        fields.nnn < MEMORY_SIZE,
{
    let x: u16 = (opcode & 0x0F00) >> 8;
    let y: u16 = (opcode & 0x00F0) >> 4;
    let n: u16 = opcode & 0x000F;
    let nn: u16 = opcode & 0x00FF;
    let nnn: u16 = opcode & 0x0FFF;
    proof {
        assert((opcode & 0x0F00) >> 8 == (opcode / 0x100) % 0x10) by (bit_vector);
        assert((opcode & 0x00F0) >> 4 == (opcode / 0x10) % 0x10) by (bit_vector);
        assert(opcode & 0x000F == opcode % 0x10) by (bit_vector);
        assert(opcode & 0x00FF == opcode % 0x100) by (bit_vector);
        assert(opcode & 0x0FFF == opcode % 0x1000) by (bit_vector);
    }
    Operands { x: x as usize, y: y as usize, n: n as u8, nn: nn as u8, nnn }
}

/// Names the instruction that a word stands for; `Unknown` where it stands
/// for none.
pub fn decode(opcode: u16) -> (instruction: Instructions)
    ensures
        instruction == decoded(opcode),
{
    let family: u16 = opcode & 0xF000;
    let nibble: u16 = opcode & 0x000F;
    let byte: u16 = opcode & 0x00FF;
    proof {
        assert(opcode & 0xF000 == (opcode / 0x1000) * 0x1000) by (bit_vector);
        assert(opcode & 0x000F == opcode % 0x10) by (bit_vector);
        assert(opcode & 0x00FF == opcode % 0x100) by (bit_vector);
    }
    match family {
        0x0000 => match nibble {
            0x0000 => Instructions::ClearScreen,
            0x000E => Instructions::Return,
            _ => Instructions::Unknown,
        },
        0x1000 => Instructions::Jump,
        0x2000 => Instructions::Call,
        0x3000 => Instructions::SkipIfEqual,
        0x4000 => Instructions::SkipIfNotEqual,
        0x5000 => Instructions::SkipIfVxEqualVy,
        0x6000 => Instructions::SetVx,
        0x7000 => Instructions::AddVx,
        0x8000 => match nibble {
            0x0000 => Instructions::SetVxVy,
            0x0001 => Instructions::SetVxOrVy,
            0x0002 => Instructions::SetVxAndVy,
            0x0003 => Instructions::SetVxXorVy,
            0x0004 => Instructions::AddVxVy,
            0x0005 => Instructions::SubVxVy,
            0x0006 => Instructions::ShiftRight,
            0x0007 => Instructions::SubVyVx,
            0x000E => Instructions::ShiftLeft,
            _ => Instructions::Unknown,
        },
        0x9000 => Instructions::SkipIfVxNotVy,
        0xA000 => Instructions::SetI,
        0xB000 => Instructions::JumpV0,
        0xC000 => Instructions::Random,
        0xD000 => Instructions::Draw,
        0xE000 => match byte {
            0x009E => Instructions::SkipIfPressed,
            0x00A1 => Instructions::SkipIfNotPressed,
            _ => Instructions::Unknown,
        },
        0xF000 => match byte {
            0x0007 => Instructions::SetVxToDelayTimer,
            0x000A => Instructions::WaitForKeyPress,
            0x0015 => Instructions::SetDelayTimer,
            0x0018 => Instructions::SetSoundTimer,
            0x001E => Instructions::AddVxToI,
            0x0029 => Instructions::SetIToSprite,
            0x0033 => Instructions::StoreBCD,
            0x0055 => Instructions::StoreRegisters,
            0x0065 => Instructions::LoadRegisters,
            _ => Instructions::Unknown,
        },
        _ => Instructions::Unknown,
    }
}

/// The flag register's value for a condition.
fn flag_value(condition: bool) -> (value: u8)
    ensures
        value == flag(condition),
{
    if condition {
        1
    } else {
        0
    }
}

/// Eight-bit sum, wrapping.
fn add8(a: u8, b: u8) -> (sum: u8)
    ensures
        sum == wrap8(a + b),
{
    a.wrapping_add(b)
}

/// Eight-bit difference, wrapping.
fn sub8(a: u8, b: u8) -> (difference: u8)
    ensures
        difference == wrap8(a - b),
{
    a.wrapping_sub(b)
}

/// Eight-bit shift to the right by one.
fn shr8(a: u8) -> (half: u8)
    ensures
        half == a / 2,
{
    assert(a >> 1 == a / 2) by (bit_vector);
    a >> 1
}

/// Eight-bit shift to the left by one; the top bit falls out.
fn shl8(a: u8) -> (double: u8)
    ensures
        double == wrap8(a * 2),
{
    assert(a << 1 == (a * 2) % 0x100) by (bit_vector);
    a << 1
}

impl Registers {
    /// Carries out a register-to-register instruction on `Vx` and `Vy`. The
    /// flag is written before `Vx`.
    fn run_arithmetic(&mut self, instruction: Instructions, x: usize, y: usize)
        requires
            x < NUM_REGISTERS,
            y < NUM_REGISTERS,
        ensures
            final(self).v@ == arithmetic(old(self).v@, instruction, x as int, y as int),
            final(self).i == old(self).i,
            final(self).pc == old(self).pc,
    {
        let vx: u8 = self.v[x];
        let vy: u8 = self.v[y];
        match instruction {
            Instructions::SetVxVy => {
                self.v[x] = vy;
            },
            Instructions::SetVxOrVy => {
                self.v[x] = vx | vy;
            },
            Instructions::SetVxAndVy => {
                self.v[x] = vx & vy;
            },
            Instructions::SetVxXorVy => {
                self.v[x] = vx ^ vy;
            },
            Instructions::AddVxVy => {
                self.v[FLAG] = flag_value(vx as u16 + vy as u16 > 0xFF);
                self.v[x] = add8(vx, vy);
            },
            Instructions::SubVxVy => {
                self.v[FLAG] = flag_value(vx > vy);
                self.v[x] = sub8(self.v[x], self.v[y]);
            },
            Instructions::ShiftRight => {
                self.v[FLAG] = flag_value(vx % 2 == 1);
                self.v[x] = shr8(self.v[x]);
            },
            Instructions::SubVyVx => {
                self.v[FLAG] = flag_value(vy > vx);
                self.v[x] = sub8(self.v[y], self.v[x]);
            },
            Instructions::ShiftLeft => {
                self.v[FLAG] = flag_value(vx >= 0x80);
                self.v[x] = shl8(self.v[x]);
            },
            _ => {},
        }
    }
}

/// Draws the sprite of `n` rows that lies in `ram` at the index register, at
/// the position that `Vx` and `Vy` give. The flag is cleared first and set by
/// every lit cell that a pixel of the sprite lands on.
fn draw_sprite(
    registers: &mut Registers,
    display: &mut Display,
    ram: &[u8; MEMORY_SIZE],
    x: usize,
    y: usize,
    n: u8,
)
    requires
        x < NUM_REGISTERS,
        y < NUM_REGISTERS,
        n < 16,
        n > 0 ==> old(registers).i + n <= MEMORY_SIZE,
    ensures
        (Canvas { v: final(registers).v@, display: final(display)@ }) == (Canvas {
            v: old(registers).v@,
            display: old(display)@,
        }).drawn(ram@, old(registers).i as int, x as int, y as int, (8 * n) as nat),
        final(registers).i == old(registers).i,
        final(registers).pc == old(registers).pc,
{
    let ghost start = Canvas { v: registers.v@, display: display@ };
    let ghost at = registers.i as int;
    registers.v[FLAG] = 0;
    let mut yline: u8 = 0;
    while yline < n
        invariant
            x < NUM_REGISTERS,
            y < NUM_REGISTERS,
            yline <= n < 16,
            registers.i == at,
            n > 0 ==> at + n <= MEMORY_SIZE,
            registers.pc == old(registers).pc,
            (Canvas { v: registers.v@, display: display@ }) == start.drawn(
                ram@,
                at,
                x as int,
                y as int,
                (8 * yline) as nat,
            ),
        decreases n - yline,
    {
        let pixel: u8 = ram[(registers.i + yline as u16) as usize];
        let mut xline: u8 = 0;
        while xline < 8
            invariant
                x < NUM_REGISTERS,
                y < NUM_REGISTERS,
                yline < n < 16,
                xline <= 8,
                registers.i == at,
                at + n <= MEMORY_SIZE,
                pixel == ram@[at + yline],
                registers.pc == old(registers).pc,
                (Canvas { v: registers.v@, display: display@ }) == start.drawn(
                    ram@,
                    at,
                    x as int,
                    y as int,
                    (8 * yline + xline) as nat,
                ),
            decreases 8 - xline,
        {
            let ghost before = Canvas { v: registers.v@, display: display@ };
            if (pixel & (0x80u8 >> xline)) != 0 {
                let x_coord: usize = (registers.v[x] as usize + xline as usize) % SCREEN_WIDTH;
                let y_coord: usize = (registers.v[y] as usize + yline as usize) % SCREEN_HEIGHT;
                if display.buffer[y_coord][x_coord] == 1 {
                    registers.v[FLAG] = 1;
                }
                display.draw_pixel(x_coord, y_coord);
                assert((Canvas { v: registers.v@, display: display@ }) == before.plot(
                    x as int,
                    y as int,
                    yline as int,
                    xline as int,
                ));
            }
            xline += 1;
            assert((8 * yline + xline - 1) / 8 == yline as int);
            assert((8 * yline + xline - 1) % 8 == xline - 1);
        }
        yline += 1;
    }
}

/// Looks for a key that is down and puts the highest such key into `Vx`.
/// Says whether there was one; without one the registers stay as they are.
fn wait_for_key(registers: &mut Registers, keypad: &Keypad, x: usize) -> (key_pressed: bool)
    requires
        x < NUM_REGISTERS,
    ensures
        key_pressed == (highest_key_down(keypad@, KEY_COUNT as nat) is Some),
        final(registers).v@ == match highest_key_down(keypad@, KEY_COUNT as nat) {
            Some(key) => old(registers).v@.update(x as int, key),
            None => old(registers).v@,
        },
        final(registers).i == old(registers).i,
        final(registers).pc == old(registers).pc,
{
    let mut key_pressed: bool = false;
    let count: usize = keypad.len();
    let mut i: usize = 0;
    while i < count
        invariant
            x < NUM_REGISTERS,
            i <= count == KEY_COUNT,
            key_pressed == (highest_key_down(keypad@, i as nat) is Some),
            registers.v@ == match highest_key_down(keypad@, i as nat) {
                Some(key) => old(registers).v@.update(x as int, key),
                None => old(registers).v@,
            },
            registers.i == old(registers).i,
            registers.pc == old(registers).pc,
        decreases count - i,
    {
        if keypad.get_key(i as u8) != 0 {
            registers.v[x] = i as u8;
            key_pressed = true;
            assert(registers.v@ =~= old(registers).v@.update(x as int, i as u8));
        }
        i += 1;
    }
    key_pressed
}

/// Writes the three decimal digits of `value` to `ram` at `at`, hundreds
/// first.
fn store_bcd(ram: &mut [u8; MEMORY_SIZE], at: u16, value: u8)
    requires
        at + 2 < MEMORY_SIZE,
    ensures
        final(ram)@ == with_digits(old(ram)@, at as int, value),
{
    ram[at as usize] = value / 100;
    ram[at as usize + 1] = (value / 10) % 10;
    ram[at as usize + 2] = (value % 100) % 10;
}

/// Writes registers `V0` to `Vx` to `ram` at `at`, in order.
fn store_registers(ram: &mut [u8; MEMORY_SIZE], at: u16, v: &[u8; NUM_REGISTERS], x: usize)
    requires
        x < NUM_REGISTERS,
        at + x < MEMORY_SIZE,
    ensures
        final(ram)@ == with_registers(old(ram)@, at as int, v@, x as int),
{
    let mut i: usize = 0;
    while i < x + 1
        invariant
            x < NUM_REGISTERS,
            at + x < MEMORY_SIZE,
            i <= x + 1,
            ram@ == with_registers(old(ram)@, at as int, v@, i - 1),
        decreases x + 1 - i,
    {
        ram[at as usize + i] = v[i];
        i += 1;
        assert(ram@ =~= with_registers(old(ram)@, at as int, v@, i - 1));
    }
}

/// Reads registers `V0` to `Vx` from `ram` at `at`, in order.
fn load_registers(v: &mut [u8; NUM_REGISTERS], ram: &[u8; MEMORY_SIZE], at: u16, x: usize)
    requires
        x < NUM_REGISTERS,
        at + x < MEMORY_SIZE,
    ensures
        final(v)@ == from_memory(old(v)@, ram@, at as int, x as int),
{
    let mut i: usize = 0;
    while i < x + 1
        invariant
            x < NUM_REGISTERS,
            at + x < MEMORY_SIZE,
            i <= x + 1,
            v@ == from_memory(old(v)@, ram@, at as int, i - 1),
        decreases x + 1 - i,
    {
        v[i] = ram[at as usize + i];
        i += 1;
        assert(v@ =~= from_memory(old(v)@, ram@, at as int, i - 1));
    }
}

/// A byte from `rand::random`, that is from the calling thread's random
/// number generator. Nothing is claimed of the byte: any of the 256 values may
/// come back, and two calls may differ. The generator seeds itself from the
/// operating system, at its first use in a thread and again from time to
/// time, and panics where the operating system gives it no seed. No
/// precondition can rule that out, so this call is the one place where the
/// library can panic.
#[verifier::external_body]
fn random_byte() -> (byte: u8) {
    rand::random::<u8>()
}

/// The virtual machine: memory, call stack, registers, keypad, timers and
/// framebuffer, with the bookkeeping of the last cycle.
pub struct Chip8VM {
    pub ram: [u8; MEMORY_SIZE],
    pub stack: Stack,
    pub registers: Registers,
    pub keypad: Keypad,
    pub timers: Timers,
    pub display: Display,
    pub state: CpuState,
    pub program_counter_state: ProgramCounterState,
    pub current_instruction: Instructions,
}

impl View for Chip8VM {
    type V = Machine;

    open spec fn view(&self) -> Machine {
        Machine {
            ram: self.ram@,
            stack: self.stack@,
            v: self.registers.v@,
            i: self.registers.i,
            pc: self.registers.pc,
            keypad: self.keypad@,
            timers: self.timers@,
            display: self.display@,
            state: self.state,
            program_counter_state: self.program_counter_state,
            current_instruction: self.current_instruction,
        }
    }
}

impl Chip8VM {
    /// Every machine has the same sizes.
    pub proof fn lemma_shaped(&self)
        ensures
            self@.shaped(),
    {
        self.stack.lemma_slot_count();
        self.keypad.lemma_key_count();
        self.display.lemma_is_grid();
    }

    pub fn new() -> (vm: Self)
        ensures
            vm@ == Machine::fresh(),
    {
        let vm = Chip8VM {
            ram: [0; MEMORY_SIZE],
            stack: Stack::new(),
            registers: Registers { v: [0; NUM_REGISTERS], i: 0, pc: PROGRAM_START_ADDRESS as u16 },
            timers: Timers::new(),
            keypad: Keypad::new(),
            display: Display::new(),
            state: CpuState::Halted,
            program_counter_state: ProgramCounterState::Unknown,
            current_instruction: Instructions::Unknown,
        };
        proof {
            assert(vm@.ram =~= blank_memory());
            assert(vm@.v =~= blank_registers());
        }
        vm
    }

    /// Zeroes memory, stack, registers, timers and keypad, clears the
    /// framebuffer and puts the program counter back at the start address.
    /// The font goes with the rest of memory.
    pub fn reset(&mut self)
        ensures
            final(self)@ == Machine::after_reset(),
    {
        self.ram = [0; MEMORY_SIZE];
        self.stack.reset();
        self.registers = Registers { v: [0; NUM_REGISTERS], i: 0, pc: 0x200 };
        self.timers.reset();
        self.keypad.reset();
        self.display.clear();
        self.state = CpuState::Halted;
        self.program_counter_state = ProgramCounterState::Next;
        self.current_instruction = Instructions::Unknown;
        proof {
            assert(self@.ram =~= blank_memory());
            assert(self@.v =~= blank_registers());
        }
    }

    /// Copies the font to the start of memory. Nothing else changes.
    pub fn init_fontset(&mut self)
        ensures
            final(self)@ == (Machine { ram: with_font(old(self)@.ram), ..old(self)@ }),
    {
        let mut i: usize = 0;
        while i < FONTSET_SIZE
            invariant
                i <= FONTSET_SIZE,
                self@ == (Machine { ram: self@.ram, ..old(self)@ }),
                forall|a: int| 0 <= a < i ==> self@.ram[a] == FONTSET@[a],
                forall|a: int| i <= a < MEMORY_SIZE ==> self@.ram[a] == old(self)@.ram[a],
            decreases FONTSET_SIZE - i,
        {
            self.ram[i] = FONTSET[i];
            i += 1;
        }
        proof {
            assert(self@.ram =~= with_font(old(self)@.ram));
        }
    }

    /// Copies `rom` byte for byte to the start address. Memory below the start
    /// address, memory behind the program and everything else stay as they are.
    pub fn load_rom(&mut self, rom: Vec<u8>)
        requires
            rom@.len() <= MAX_ROM_SIZE,
        ensures
            final(self)@ == (Machine { ram: with_rom(old(self)@.ram, rom@), ..old(self)@ }),
    {
        let mut i: usize = 0;
        while i < rom.len()
            invariant
                i <= rom@.len() <= MAX_ROM_SIZE,
                self@ == (Machine { ram: self@.ram, ..old(self)@ }),
                forall|a: int|
                    PROGRAM_START_ADDRESS <= a < PROGRAM_START_ADDRESS + i ==> self@.ram[a]
                        == rom@[a - PROGRAM_START_ADDRESS],
                forall|a: int|
                    0 <= a < MEMORY_SIZE && !(PROGRAM_START_ADDRESS <= a < PROGRAM_START_ADDRESS
                        + i) ==> self@.ram[a] == old(self)@.ram[a],
            decreases rom@.len() - i,
        {
            self.ram[i + PROGRAM_START_ADDRESS] = rom[i];
            i += 1;
        }
        proof {
            assert(self@.ram =~= with_rom(old(self)@.ram, rom@));
        }
    }

    /// Reads the instruction word at the program counter: two bytes, the high
    /// one first.
    pub fn fetch(&self) -> (opcode: u16)
        requires
            self@.pc + 1 < MEMORY_SIZE,
        ensures
            opcode == self@.opcode(),
    {
        let pc: usize = self.registers.pc as usize;
        let hi: u16 = self.ram[pc] as u16;
        let lo: u16 = self.ram[pc + 1] as u16;
        proof {
            assert((hi << 8) | lo == hi * 0x100 + lo) by (bit_vector)
                requires
                    hi < 0x100,
                    lo < 0x100,
            ;
        }
        (hi << 8) | lo
    }

    /// Moves the program counter on to the following instruction.
    pub fn next_instruction(&mut self)
        requires
            old(self)@.pc + 2 <= u16::MAX,
        ensures
            final(self)@ == (Machine { pc: (old(self)@.pc + 2) as u16, ..old(self)@ }),
    {
        self.registers.pc += 2;
    }

    /// Moves the program counter past the following instruction.
    pub fn skip_next_instruction(&mut self)
        requires
            old(self)@.pc + 4 <= u16::MAX,
        ensures
            final(self)@ == (Machine { pc: (old(self)@.pc + 4) as u16, ..old(self)@ }),
    {
        self.registers.pc += 4;
    }

    /// Puts the program counter at `addr`.
    pub fn jump_next_instruction(&mut self, addr: u16)
        ensures
            final(self)@ == (Machine { pc: addr, ..old(self)@ }),
    {
        self.registers.pc = addr;
    }

    /// Finds out whether `instruction`, decoded from `opcode`, can run on the
    /// machine as it is, and why not if it cannot.
    fn check(&self, instruction: Instructions, opcode: u16) -> (fault: Option<Fault>)
        ensures
            fault == self@.fault_of(instruction, opcode),
    {
        let fields = operands(opcode);
        let index: usize = self.registers.i as usize;
        match instruction {
            Instructions::Unknown => Some(Fault::UnknownOpcode(opcode)),
            Instructions::Return => if self.stack.is_in_range() {
                None
            } else {
                Some(Fault::StackOutOfRange)
            },
            Instructions::Call => if self.stack.can_call() {
                None
            } else {
                Some(Fault::StackOutOfRange)
            },
            Instructions::Draw => if fields.n > 0 && index + fields.n as usize > MEMORY_SIZE {
                Some(Fault::MemoryOutOfRange)
            } else {
                None
            },
            Instructions::SkipIfPressed | Instructions::SkipIfNotPressed => if (
            self.registers.v[fields.x] as usize) < KEY_COUNT {
                None
            } else {
                Some(Fault::KeyOutOfRange)
            },
            Instructions::StoreBCD => if index + 2 < MEMORY_SIZE {
                None
            } else {
                Some(Fault::MemoryOutOfRange)
            },
            Instructions::StoreRegisters | Instructions::LoadRegisters => if index + fields.x
                < MEMORY_SIZE {
                None
            } else {
                Some(Fault::MemoryOutOfRange)
            },
            _ => None,
        }
    }

    /// Stops the machine after a fault.
    fn halt(&mut self)
        ensures
            final(self)@ == old(self)@.halted(),
    {
        self.state = CpuState::Halted;
        self.current_instruction = Instructions::Unknown;
    }

    /// Decodes `opcode` and carries the instruction out, recording its name
    /// and what is to become of the program counter. `random_byte` is used by
    /// the one instruction that asks for a random number. Where the
    /// instruction cannot run, the machine halts with nothing else touched.
    pub fn execute(&mut self, opcode: u16, random_byte: u8) -> (result: Result<(), Fault>)
        requires
            old(self)@.pc + 1 < MEMORY_SIZE,
        ensures
            result == match old(self)@.fault_of(decoded(opcode), opcode) {
                Some(fault) => Err::<(), Fault>(fault),
                None => Ok(()),
            },
            result is Err ==> final(self)@ == old(self)@.halted(),
            result is Ok ==> final(self)@ == old(self)@.effect(
                decoded(opcode),
                opcode,
                random_byte,
            ),
    {
        let instruction = decode(opcode);
        let fields = operands(opcode);
        let x: usize = fields.x;
        let y: usize = fields.y;
        if let Some(fault) = self.check(instruction, opcode) {
            self.halt();
            return Err(fault);
        }
        proof {
            self.stack.lemma_slot_count();
        }
        self.state = CpuState::Running;
        self.program_counter_state = ProgramCounterState::Next;
        self.current_instruction = instruction;
        match instruction {
            Instructions::ClearScreen => {
                self.display.clear();
            },
            Instructions::Return => {
                self.program_counter_state = ProgramCounterState::Jump(self.stack.pop());
            },
            Instructions::Jump => {
                self.program_counter_state = ProgramCounterState::Jump(fields.nnn);
            },
            Instructions::Call => {
                if self.stack.get() != 0 {
                    self.stack.increment_sp();
                }
                self.stack.set(self.registers.pc + 2);
                self.program_counter_state = ProgramCounterState::Jump(fields.nnn);
            },
            Instructions::SkipIfEqual => {
                if self.registers.v[x] == fields.nn {
                    self.program_counter_state = ProgramCounterState::Skip;
                }
            },
            Instructions::SkipIfNotEqual => {
                if self.registers.v[x] != fields.nn {
                    self.program_counter_state = ProgramCounterState::Skip;
                }
            },
            Instructions::SkipIfVxEqualVy => {
                if self.registers.v[x] == self.registers.v[y] {
                    self.program_counter_state = ProgramCounterState::Skip;
                }
            },
            Instructions::SkipIfVxNotVy => {
                if self.registers.v[x] != self.registers.v[y] {
                    self.program_counter_state = ProgramCounterState::Skip;
                }
            },
            Instructions::SetVx => {
                self.registers.v[x] = fields.nn;
            },
            Instructions::AddVx => {
                self.registers.v[x] = add8(self.registers.v[x], fields.nn);
            },
            Instructions::SetVxVy
            | Instructions::SetVxOrVy
            | Instructions::SetVxAndVy
            | Instructions::SetVxXorVy
            | Instructions::AddVxVy
            | Instructions::SubVxVy
            | Instructions::ShiftRight
            | Instructions::SubVyVx
            | Instructions::ShiftLeft => {
                self.registers.run_arithmetic(instruction, x, y);
            },
            Instructions::SetI => {
                self.registers.i = fields.nnn;
            },
            Instructions::JumpV0 => {
                self.program_counter_state = ProgramCounterState::Jump(
                    fields.nnn + self.registers.v[0] as u16,
                );
            },
            Instructions::Random => {
                self.registers.v[x] = random_byte & fields.nn;
            },
            Instructions::Draw => {
                draw_sprite(&mut self.registers, &mut self.display, &self.ram, x, y, fields.n);
            },
            Instructions::SkipIfPressed => {
                if self.keypad.get_key(self.registers.v[x]) != 0 {
                    self.program_counter_state = ProgramCounterState::Skip;
                }
            },
            Instructions::SkipIfNotPressed => {
                if self.keypad.get_key(self.registers.v[x]) == 0 {
                    self.program_counter_state = ProgramCounterState::Skip;
                }
            },
            Instructions::SetVxToDelayTimer => {
                self.registers.v[x] = self.timers.get_delay_timer();
            },
            Instructions::WaitForKeyPress => {
                let key_pressed: bool = wait_for_key(&mut self.registers, &self.keypad, x);
                if !key_pressed {
                    self.program_counter_state = ProgramCounterState::Jump(self.registers.pc);
                }
            },
            Instructions::SetDelayTimer => {
                self.timers.set_delay_timer(self.registers.v[x]);
            },
            Instructions::SetSoundTimer => {
                self.timers.set_sound_timer(self.registers.v[x]);
            },
            Instructions::AddVxToI => {
                self.registers.i = self.registers.i.wrapping_add(self.registers.v[x] as u16);
                self.registers.v[FLAG] = flag_value(self.registers.i > 0xFFF);
            },
            Instructions::SetIToSprite => {
                self.registers.i = self.registers.v[x] as u16 * 5;
            },
            Instructions::StoreBCD => {
                store_bcd(&mut self.ram, self.registers.i, self.registers.v[x]);
            },
            Instructions::StoreRegisters => {
                store_registers(&mut self.ram, self.registers.i, &self.registers.v, x);
                self.registers.i += x as u16 + 1;
            },
            Instructions::LoadRegisters => {
                load_registers(&mut self.registers.v, &self.ram, self.registers.i, x);
                self.registers.i += x as u16 + 1;
            },
            Instructions::Unknown => {},
        }
        Ok(())
    }

    /// Carries out `opcode`, which was fetched at the program counter, and
    /// moves the program counter as the instruction asks.
    fn run(&mut self, opcode: u16, random_byte: u8) -> (result: Result<(), Fault>)
        requires
            old(self)@.pc + 1 < MEMORY_SIZE,
            opcode == old(self)@.opcode(),
        ensures
            result == old(self)@.outcome(),
            final(self)@ == old(self)@.step(random_byte),
    {
        match self.execute(opcode, random_byte) {
            Err(fault) => Err(fault),
            Ok(()) => {
                match self.program_counter_state {
                    ProgramCounterState::Next => self.next_instruction(),
                    ProgramCounterState::Skip => self.skip_next_instruction(),
                    ProgramCounterState::Jump(addr) => self.jump_next_instruction(addr),
                    ProgramCounterState::Unknown => (),
                }
                Ok(())
            },
        }
    }

    /// One fetch-decode-execute step in which the random source is taken to
    /// give `random_byte`. The step is a function of the machine and that byte
    /// alone. A machine that cannot run the step halts and reports why.
    pub fn cycle_with(&mut self, random_byte: u8) -> (result: Result<(), Fault>)
        ensures
            result == old(self)@.outcome(),
            final(self)@ == old(self)@.step(random_byte),
    {
        if self.registers.pc as usize + 1 >= MEMORY_SIZE {
            self.halt();
            return Err(Fault::ProgramCounterOutOfRange);
        }
        let opcode: u16 = self.fetch();
        self.run(opcode, random_byte)
    }

    /// One fetch-decode-execute step. The random source is asked only where
    /// the instruction at the program counter needs a random byte; every
    /// other step is a function of the machine alone. A machine that cannot
    /// run the step halts and reports why.
    ///
    /// # Panics
    ///
    /// Where the step draws a random byte and the operating system gives the
    /// random number generator no seed. No other step panics, and
    /// `cycle_with` never does.
    pub fn cycle(&mut self) -> (result: Result<(), Fault>)
        ensures
            result == old(self)@.outcome(),
            exists|random_byte: u8| final(self)@ == old(self)@.step(random_byte),
            !old(self)@.draws_random() ==> final(self)@ == old(self)@.step(0),
    {
        if self.registers.pc as usize + 1 >= MEMORY_SIZE {
            self.halt();
            return Err(Fault::ProgramCounterOutOfRange);
        }
        let opcode: u16 = self.fetch();
        let byte: u8 = match decode(opcode) {
            Instructions::Random => random_byte(),
            _ => 0,
        };
        self.run(opcode, byte)
    }
}

} // verus!

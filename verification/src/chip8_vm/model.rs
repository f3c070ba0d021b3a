use vstd::prelude::*;

use super::display::{blank_cells, is_grid, DisplayState, Screen, SCREEN_HEIGHT, SCREEN_WIDTH};
use super::keyboard::{all_keys_up, KEY_COUNT};
use super::stack::{StackView, STACK_SIZE};
use super::timers::TimerPair;
use super::vm::{
    CpuState, Fault, Instructions, ProgramCounterState, FONTSET_SIZE, MEMORY_SIZE, NUM_REGISTERS,
    PROGRAM_START_ADDRESS,
};
use crate::resources::FONTSET;

verus! {

/// Index of the flag register.
pub const FLAG: usize = 0xF;

/// The mathematical value of a machine: everything a cycle reads or writes.
pub struct Machine {
    pub ram: Seq<u8>,
    pub stack: StackView,
    pub v: Seq<u8>,
    pub i: u16,
    pub pc: u16,
    pub keypad: Seq<u8>,
    pub timers: TimerPair,
    pub display: Screen,
    pub state: CpuState,
    pub program_counter_state: ProgramCounterState,
    pub current_instruction: Instructions,
}

/// Memory with nothing in it.
pub open spec fn blank_memory() -> Seq<u8> {
    Seq::new(MEMORY_SIZE as nat, |a: int| 0u8)
}

/// A register file with every general register at zero.
pub open spec fn blank_registers() -> Seq<u8> {
    Seq::new(NUM_REGISTERS as nat, |k: int| 0u8)
}

/// Memory with the font at its start and the rest as in `ram`.
pub open spec fn with_font(ram: Seq<u8>) -> Seq<u8> {
    Seq::new(
        MEMORY_SIZE as nat,
        |a: int|
            if a < FONTSET_SIZE {
                FONTSET@[a]
            } else {
                ram[a]
            },
    )
}

/// Memory with `rom` copied byte for byte to the start address and every other
/// byte as in `ram`.
pub open spec fn with_rom(ram: Seq<u8>, rom: Seq<u8>) -> Seq<u8> {
    Seq::new(
        MEMORY_SIZE as nat,
        |a: int|
            if PROGRAM_START_ADDRESS <= a < PROGRAM_START_ADDRESS + rom.len() {
                rom[a - PROGRAM_START_ADDRESS]
            } else {
                ram[a]
            },
    )
}

impl Machine {
    /// The sizes that every machine has.
    pub open spec fn shaped(self) -> bool {
        &&& self.ram.len() == MEMORY_SIZE
        &&& self.v.len() == NUM_REGISTERS
        &&& self.stack.slots.len() == STACK_SIZE
        &&& self.keypad.len() == KEY_COUNT
        &&& is_grid(self.display.cells)
    }

    /// Everything zeroed, the program counter at the start address, and the
    /// bookkeeping as given.
    pub open spec fn zeroed(
        display: Screen,
        program_counter_state: ProgramCounterState,
    ) -> Machine {
        Machine {
            ram: blank_memory(),
            stack: StackView::empty(),
            v: blank_registers(),
            i: 0,
            pc: PROGRAM_START_ADDRESS as u16,
            keypad: all_keys_up(),
            timers: TimerPair { delay: 0, sound: 0 },
            display,
            state: CpuState::Halted,
            program_counter_state,
            current_instruction: Instructions::Unknown,
        }
    }

    /// A machine as it is made: zeroed, nothing drawn or cleared yet.
    pub open spec fn fresh() -> Machine {
        Machine::zeroed(
            Screen { cells: blank_cells(), state: DisplayState::Noop },
            ProgramCounterState::Unknown,
        )
    }

    /// A machine after a reset: zeroed, the framebuffer cleared.
    pub open spec fn after_reset() -> Machine {
        Machine::zeroed(Screen::cleared(), ProgramCounterState::Next)
    }
}

/// Operand `x` of an instruction word: bits 8 to 11, a register number.
pub open spec fn field_x(opcode: u16) -> int {
    (opcode as int / 0x100) % 0x10
}

/// Operand `y` of an instruction word: bits 4 to 7, a register number.
pub open spec fn field_y(opcode: u16) -> int {
    (opcode as int / 0x10) % 0x10
}

/// Operand `n` of an instruction word: its low nibble.
pub open spec fn field_n(opcode: u16) -> int {
    opcode as int % 0x10
}

/// Operand `nn` of an instruction word: its low byte.
pub open spec fn field_nn(opcode: u16) -> u8 {
    (opcode % 0x100) as u8
}

/// Operand `nnn` of an instruction word: its low twelve bits, an address.
pub open spec fn field_nnn(opcode: u16) -> u16 {
    (opcode % 0x1000) as u16
}

/// The instruction that a word stands for. The top nibble names a family;
/// families 0 and 8 are told apart by the low nibble, families E and F by the
/// low byte. A word that names nothing is `Unknown`.
pub open spec fn decoded(opcode: u16) -> Instructions {
    let family = opcode as int / 0x1000;
    let nibble = opcode as int % 0x10;
    let byte = opcode as int % 0x100;
    if family == 0x0 {
        if nibble == 0x0 {
            Instructions::ClearScreen
        } else if nibble == 0xE {
            Instructions::Return
        } else {
            Instructions::Unknown
        }
    } else if family == 0x1 {
        Instructions::Jump
    } else if family == 0x2 {
        Instructions::Call
    } else if family == 0x3 {
        Instructions::SkipIfEqual
    } else if family == 0x4 {
        Instructions::SkipIfNotEqual
    } else if family == 0x5 {
        Instructions::SkipIfVxEqualVy
    } else if family == 0x6 {
        Instructions::SetVx
    } else if family == 0x7 {
        Instructions::AddVx
    } else if family == 0x8 {
        if nibble == 0x0 {
            Instructions::SetVxVy
        } else if nibble == 0x1 {
            Instructions::SetVxOrVy
        } else if nibble == 0x2 {
            Instructions::SetVxAndVy
        } else if nibble == 0x3 {
            Instructions::SetVxXorVy
        } else if nibble == 0x4 {
            Instructions::AddVxVy
        } else if nibble == 0x5 {
            Instructions::SubVxVy
        } else if nibble == 0x6 {
            Instructions::ShiftRight
        } else if nibble == 0x7 {
            Instructions::SubVyVx
        } else if nibble == 0xE {
            Instructions::ShiftLeft
        } else {
            Instructions::Unknown
        }
    } else if family == 0x9 {
        Instructions::SkipIfVxNotVy
    } else if family == 0xA {
        Instructions::SetI
    } else if family == 0xB {
        Instructions::JumpV0
    } else if family == 0xC {
        Instructions::Random
    } else if family == 0xD {
        Instructions::Draw
    } else if family == 0xE {
        if byte == 0x9E {
            Instructions::SkipIfPressed
        } else if byte == 0xA1 {
            Instructions::SkipIfNotPressed
        } else {
            Instructions::Unknown
        }
    } else {
        if byte == 0x07 {
            Instructions::SetVxToDelayTimer
        } else if byte == 0x0A {
            Instructions::WaitForKeyPress
        } else if byte == 0x15 {
            Instructions::SetDelayTimer
        } else if byte == 0x18 {
            Instructions::SetSoundTimer
        } else if byte == 0x1E {
            Instructions::AddVxToI
        } else if byte == 0x29 {
            Instructions::SetIToSprite
        } else if byte == 0x33 {
            Instructions::StoreBCD
        } else if byte == 0x55 {
            Instructions::StoreRegisters
        } else if byte == 0x65 {
            Instructions::LoadRegisters
        } else {
            Instructions::Unknown
        }
    }
}

/// The low eight bits of a number.
pub open spec fn wrap8(value: int) -> u8 {
    (value % 0x100) as u8
}

/// The low sixteen bits of a number.
pub open spec fn wrap16(value: int) -> u16 {
    (value % 0x10000) as u16
}

/// A condition as the flag register holds it.
pub open spec fn flag(condition: bool) -> u8 {
    if condition {
        1
    } else {
        0
    }
}

/// Skip where the condition holds, else go on.
pub open spec fn skip_if(condition: bool) -> ProgramCounterState {
    if condition {
        ProgramCounterState::Skip
    } else {
        ProgramCounterState::Next
    }
}

/// The general registers after a register-to-register instruction on `Vx` and
/// `Vy`. Where the instruction sets the flag, the flag is written first and
/// `Vx` second, from the registers as they then are: with `x` or `y` naming
/// the flag register, the second write sees the first.
pub open spec fn arithmetic(v: Seq<u8>, instruction: Instructions, x: int, y: int) -> Seq<u8> {
    match instruction {
        Instructions::SetVxVy => v.update(x, v[y]),
        Instructions::SetVxOrVy => v.update(x, v[x] | v[y]),
        Instructions::SetVxAndVy => v.update(x, v[x] & v[y]),
        Instructions::SetVxXorVy => v.update(x, v[x] ^ v[y]),
        Instructions::AddVxVy => v.update(FLAG as int, flag(v[x] + v[y] > 0xFF)).update(
            x,
            wrap8(v[x] + v[y]),
        ),
        Instructions::SubVxVy => {
            let flagged = v.update(FLAG as int, flag(v[x] > v[y]));
            flagged.update(x, wrap8(flagged[x] - flagged[y]))
        },
        Instructions::ShiftRight => {
            let flagged = v.update(FLAG as int, flag(v[x] % 2 == 1));
            flagged.update(x, (flagged[x] / 2) as u8)
        },
        Instructions::SubVyVx => {
            let flagged = v.update(FLAG as int, flag(v[y] > v[x]));
            flagged.update(x, wrap8(flagged[y] - flagged[x]))
        },
        Instructions::ShiftLeft => {
            let flagged = v.update(FLAG as int, flag(v[x] >= 0x80));
            flagged.update(x, wrap8(flagged[x] * 2))
        },
        _ => v,
    }
}

/// The highest key below `limit` that is down, if any is.
pub open spec fn highest_key_down(keypad: Seq<u8>, limit: nat) -> Option<u8>
    decreases limit,
{
    if limit == 0 {
        None
    } else if keypad[limit - 1] != 0 {
        Some((limit - 1) as u8)
    } else {
        highest_key_down(keypad, (limit - 1) as nat)
    }
}

/// Whether bit `column` of a sprite row is set, counted from the left, that is
/// from the most significant bit.
pub open spec fn sprite_bit(row: u8, column: int) -> bool {
    row & (0x80u8 >> (column as u8)) != 0
}

/// Memory with the three decimal digits of `value` at `at`, hundreds first.
pub open spec fn with_digits(ram: Seq<u8>, at: int, value: u8) -> Seq<u8> {
    ram.update(at, value / 100).update(at + 1, (value / 10) % 10).update(at + 2, value % 10)
}

/// Memory with registers `V0` to `Vx` at `at`, in order.
pub open spec fn with_registers(ram: Seq<u8>, at: int, v: Seq<u8>, x: int) -> Seq<u8> {
    Seq::new(
        ram.len(),
        |a: int|
            if at <= a <= at + x {
                v[a - at]
            } else {
                ram[a]
            },
    )
}

/// The general registers with `V0` to `Vx` read from memory at `at`, in order.
pub open spec fn from_memory(v: Seq<u8>, ram: Seq<u8>, at: int, x: int) -> Seq<u8> {
    Seq::new(
        v.len(),
        |k: int|
            if k <= x {
                ram[at + k]
            } else {
                v[k]
            },
    )
}

/// What a sprite draw works on: the general registers, for the position and
/// the flag, and the framebuffer.
pub struct Canvas {
    pub v: Seq<u8>,
    pub display: Screen,
}

impl Canvas {
    /// The canvas after one pixel of a sprite was drawn: the pixel in row `row`
    /// and column `column` of the sprite lands on the cell that lies that far
    /// from (`Vx`, `Vy`), wrapping at the edges. A cell that held 1 sets the
    /// flag; the cell flips either way.
    pub open spec fn plot(self, x: int, y: int, row: int, column: int) -> Canvas {
        let cx = (self.v[x] + column) % (SCREEN_WIDTH as int);
        let cy = (self.v[y] + row) % (SCREEN_HEIGHT as int);
        Canvas {
            v: if self.display.cells[cy][cx] == 1 {
                self.v.update(FLAG as int, 1)
            } else {
                self.v
            },
            display: self.display.toggled(cx, cy),
        }
    }

    /// The canvas after the first `count` pixels of the sprite that lies in
    /// `ram` at `at` were looked at, eight to a row from the left, rows from
    /// the top. The flag is cleared before the first pixel. Only set pixels
    /// are drawn. The position is read from `Vx` and `Vy` pixel by pixel, so a
    /// sprite placed by the flag register moves when the flag changes.
    pub open spec fn drawn(self, ram: Seq<u8>, at: int, x: int, y: int, count: nat) -> Canvas
        decreases count,
    {
        if count == 0 {
            Canvas { v: self.v.update(FLAG as int, 0), display: self.display }
        } else {
            let before = self.drawn(ram, at, x, y, (count - 1) as nat);
            let row = (count - 1) / 8;
            let column = (count - 1) % 8;
            if sprite_bit(ram[at + row], column) {
                before.plot(x, y, row, column)
            } else {
                before
            }
        }
    }
}

impl Machine {
    /// The instruction word at the program counter: two bytes, the high one
    /// first.
    pub open spec fn opcode(self) -> u16
        recommends
            self.pc + 1 < self.ram.len(),
    {
        (self.ram[self.pc as int] as int * 0x100 + self.ram[self.pc + 1] as int) as u16
    }

    /// The part of the machine that a sprite draw works on.
    pub open spec fn canvas(self) -> Canvas {
        Canvas { v: self.v, display: self.display }
    }

    /// Why `instruction`, decoded from `opcode`, cannot run on this machine,
    /// if it cannot.
    pub open spec fn fault_of(self, instruction: Instructions, opcode: u16) -> Option<Fault> {
        let x = field_x(opcode);
        match instruction {
            Instructions::Unknown => Some(Fault::UnknownOpcode(opcode)),
            Instructions::Return => if self.stack.in_range() {
                None
            } else {
                Some(Fault::StackOutOfRange)
            },
            Instructions::Call => if self.stack.can_call() {
                None
            } else {
                Some(Fault::StackOutOfRange)
            },
            Instructions::Draw => if field_n(opcode) > 0 && self.i + field_n(opcode)
                > MEMORY_SIZE {
                Some(Fault::MemoryOutOfRange)
            } else {
                None
            },
            Instructions::SkipIfPressed | Instructions::SkipIfNotPressed => if self.v[x]
                < KEY_COUNT {
                None
            } else {
                Some(Fault::KeyOutOfRange)
            },
            Instructions::StoreBCD => if self.i + 2 < MEMORY_SIZE {
                None
            } else {
                Some(Fault::MemoryOutOfRange)
            },
            Instructions::StoreRegisters | Instructions::LoadRegisters => if self.i + x
                < MEMORY_SIZE {
                None
            } else {
                Some(Fault::MemoryOutOfRange)
            },
            _ => None,
        }
    }

    /// Why the next cycle cannot run, if it cannot.
    pub open spec fn fault(self) -> Option<Fault> {
        if self.pc + 1 < MEMORY_SIZE {
            self.fault_of(decoded(self.opcode()), self.opcode())
        } else {
            Some(Fault::ProgramCounterOutOfRange)
        }
    }

    /// Whether the next cycle asks the random source for a byte.
    pub open spec fn draws_random(self) -> bool {
        self.pc + 1 < MEMORY_SIZE && decoded(self.opcode()) == Instructions::Random
    }

    /// What a cycle reports: the fault, or success.
    pub open spec fn outcome(self) -> Result<(), Fault> {
        match self.fault() {
            Some(fault) => Err(fault),
            None => Ok(()),
        }
    }

    /// The machine after `instruction`, decoded from `opcode`, has done its
    /// work, the program counter still on the instruction and its disposition
    /// recorded. `random_byte` is what the random source gave; only `Random`
    /// looks at it.
    pub open spec fn effect(self, instruction: Instructions, opcode: u16, random_byte: u8) -> Machine {
        let x = field_x(opcode);
        let y = field_y(opcode);
        let nn = field_nn(opcode);
        let nnn = field_nnn(opcode);
        let base = Machine {
            state: CpuState::Running,
            program_counter_state: ProgramCounterState::Next,
            current_instruction: instruction,
            ..self
        };
        match instruction {
            Instructions::ClearScreen => Machine { display: Screen::cleared(), ..base },
            Instructions::Return => Machine {
                stack: self.stack.popped(),
                program_counter_state: ProgramCounterState::Jump(self.stack.top()),
                ..base
            },
            Instructions::Jump => Machine {
                program_counter_state: ProgramCounterState::Jump(nnn),
                ..base
            },
            Instructions::Call => Machine {
                stack: self.stack.called((self.pc + 2) as u16),
                program_counter_state: ProgramCounterState::Jump(nnn),
                ..base
            },
            Instructions::SkipIfEqual => Machine {
                program_counter_state: skip_if(self.v[x] == nn),
                ..base
            },
            Instructions::SkipIfNotEqual => Machine {
                program_counter_state: skip_if(self.v[x] != nn),
                ..base
            },
            Instructions::SkipIfVxEqualVy => Machine {
                program_counter_state: skip_if(self.v[x] == self.v[y]),
                ..base
            },
            Instructions::SkipIfVxNotVy => Machine {
                program_counter_state: skip_if(self.v[x] != self.v[y]),
                ..base
            },
            Instructions::SetVx => Machine { v: self.v.update(x, nn), ..base },
            Instructions::AddVx => Machine { v: self.v.update(x, wrap8(self.v[x] + nn)), ..base },
            Instructions::SetVxVy
            | Instructions::SetVxOrVy
            | Instructions::SetVxAndVy
            | Instructions::SetVxXorVy
            | Instructions::AddVxVy
            | Instructions::SubVxVy
            | Instructions::ShiftRight
            | Instructions::SubVyVx
            | Instructions::ShiftLeft => Machine {
                v: arithmetic(self.v, instruction, x, y),
                ..base
            },
            Instructions::SetI => Machine { i: nnn, ..base },
            Instructions::JumpV0 => Machine {
                program_counter_state: ProgramCounterState::Jump((nnn + self.v[0]) as u16),
                ..base
            },
            Instructions::Random => Machine { v: self.v.update(x, random_byte & nn), ..base },
            Instructions::Draw => {
                let canvas = self.canvas().drawn(
                    self.ram,
                    self.i as int,
                    x,
                    y,
                    (8 * field_n(opcode)) as nat,
                );
                Machine { v: canvas.v, display: canvas.display, ..base }
            },
            Instructions::SkipIfPressed => Machine {
                program_counter_state: skip_if(self.keypad[self.v[x] as int] != 0),
                ..base
            },
            Instructions::SkipIfNotPressed => Machine {
                program_counter_state: skip_if(self.keypad[self.v[x] as int] == 0),
                ..base
            },
            Instructions::SetVxToDelayTimer => Machine {
                v: self.v.update(x, self.timers.delay),
                ..base
            },
            Instructions::WaitForKeyPress => match highest_key_down(self.keypad, KEY_COUNT as nat) {
                Some(key) => Machine { v: self.v.update(x, key), ..base },
                None => Machine {
                    program_counter_state: ProgramCounterState::Jump(self.pc),
                    ..base
                },
            },
            Instructions::SetDelayTimer => Machine {
                timers: TimerPair { delay: self.v[x], sound: self.timers.sound },
                ..base
            },
            Instructions::SetSoundTimer => Machine {
                timers: TimerPair { delay: self.timers.delay, sound: self.v[x] },
                ..base
            },
            Instructions::AddVxToI => Machine {
                i: wrap16(self.i + self.v[x]),
                v: self.v.update(FLAG as int, flag(wrap16(self.i + self.v[x]) > 0xFFF)),
                ..base
            },
            Instructions::SetIToSprite => Machine { i: (self.v[x] * 5) as u16, ..base },
            Instructions::StoreBCD => Machine {
                ram: with_digits(self.ram, self.i as int, self.v[x]),
                ..base
            },
            Instructions::StoreRegisters => Machine {
                ram: with_registers(self.ram, self.i as int, self.v, x),
                i: (self.i + x + 1) as u16,
                ..base
            },
            Instructions::LoadRegisters => Machine {
                v: from_memory(self.v, self.ram, self.i as int, x),
                i: (self.i + x + 1) as u16,
                ..base
            },
            Instructions::Unknown => base,
        }
    }

    /// The machine with the recorded disposition applied to the program
    /// counter: on to the next instruction, past it, or to the address.
    pub open spec fn resolved(self) -> Machine {
        match self.program_counter_state {
            ProgramCounterState::Next => Machine { pc: (self.pc + 2) as u16, ..self },
            ProgramCounterState::Skip => Machine { pc: (self.pc + 4) as u16, ..self },
            ProgramCounterState::Jump(address) => Machine { pc: address, ..self },
            ProgramCounterState::Unknown => self,
        }
    }

    /// The machine stopped by a fault: nothing but the bookkeeping touched.
    pub open spec fn halted(self) -> Machine {
        Machine { state: CpuState::Halted, current_instruction: Instructions::Unknown, ..self }
    }

    /// The machine after one cycle in which the random source gives
    /// `random_byte`: halted where the cycle cannot run, else the instruction
    /// at the program counter carried out and the program counter moved.
    pub open spec fn step(self, random_byte: u8) -> Machine {
        if self.fault() is Some {
            self.halted()
        } else {
            self.effect(decoded(self.opcode()), self.opcode(), random_byte).resolved()
        }
    }

    /// The machine after as many cycles as `random_bytes` is long, the random
    /// source giving that sequence, together with the fault that stopped the
    /// run, if one did. No cycle runs after a fault.
    pub open spec fn after_cycles(self, random_bytes: Seq<u8>) -> (Machine, Option<Fault>)
        decreases random_bytes.len(),
    {
        if random_bytes.len() == 0 {
            (self, None)
        } else {
            let (before, stopped) = self.after_cycles(random_bytes.drop_last());
            if stopped is Some {
                (before, stopped)
            } else {
                (before.step(random_bytes.last()), before.fault())
            }
        }
    }
}

/// Every instruction is what its own word decodes to.
pub proof fn lemma_pattern_decodes(instruction: Instructions)
    ensures
        decoded(instruction.pattern()) == instruction,
{
}

/// A loaded program lies in memory byte for byte from the start address on,
/// and loading it leaves every byte below the start address, the font among
/// them, and every byte behind the program as it was.
pub proof fn lemma_rom_is_verbatim(ram: Seq<u8>, rom: Seq<u8>)
    requires
        ram.len() == MEMORY_SIZE,
        PROGRAM_START_ADDRESS + rom.len() <= MEMORY_SIZE,
    ensures
        with_rom(ram, rom).len() == MEMORY_SIZE,
        with_rom(ram, rom).subrange(
            PROGRAM_START_ADDRESS as int,
            PROGRAM_START_ADDRESS + rom.len(),
        ) == rom,
        with_rom(ram, rom).subrange(0, PROGRAM_START_ADDRESS as int) == ram.subrange(
            0,
            PROGRAM_START_ADDRESS as int,
        ),
        with_rom(ram, rom).subrange(PROGRAM_START_ADDRESS + rom.len(), MEMORY_SIZE as int)
            == ram.subrange(PROGRAM_START_ADDRESS + rom.len(), MEMORY_SIZE as int),
{
    let loaded = with_rom(ram, rom);
    let start = PROGRAM_START_ADDRESS as int;
    let end = PROGRAM_START_ADDRESS + rom.len();
    assert(loaded.subrange(start, end) =~= rom);
    assert(loaded.subrange(0, start) =~= ram.subrange(0, start));
    assert(loaded.subrange(end, MEMORY_SIZE as int) =~= ram.subrange(end, MEMORY_SIZE as int));
}

/// The font lies at the start of memory once it is installed, and a program
/// loaded afterwards leaves it there.
pub proof fn lemma_font_survives_load(ram: Seq<u8>, rom: Seq<u8>)
    requires
        ram.len() == MEMORY_SIZE,
        PROGRAM_START_ADDRESS + rom.len() <= MEMORY_SIZE,
    ensures
        with_font(ram).subrange(0, FONTSET_SIZE as int) == FONTSET@,
        with_rom(with_font(ram), rom).subrange(0, FONTSET_SIZE as int) == FONTSET@,
        with_rom(with_font(ram), rom).subrange(
            PROGRAM_START_ADDRESS as int,
            PROGRAM_START_ADDRESS + rom.len(),
        ) == rom,
        with_rom(with_font(ram), rom).subrange(FONTSET_SIZE as int, PROGRAM_START_ADDRESS as int)
            == ram.subrange(FONTSET_SIZE as int, PROGRAM_START_ADDRESS as int),
        with_rom(with_font(ram), rom).subrange(PROGRAM_START_ADDRESS + rom.len(), MEMORY_SIZE as int)
            == ram.subrange(PROGRAM_START_ADDRESS + rom.len(), MEMORY_SIZE as int),
{
    let installed = with_font(ram);
    let loaded = with_rom(installed, rom);
    let start = PROGRAM_START_ADDRESS as int;
    let end = PROGRAM_START_ADDRESS + rom.len();
    assert(installed.subrange(0, FONTSET_SIZE as int) =~= FONTSET@);
    assert(loaded.subrange(0, FONTSET_SIZE as int) =~= FONTSET@);
    assert(loaded.subrange(start, end) =~= rom);
    assert(loaded.subrange(FONTSET_SIZE as int, start) =~= ram.subrange(
        FONTSET_SIZE as int,
        start,
    ));
    assert(loaded.subrange(end, MEMORY_SIZE as int) =~= ram.subrange(end, MEMORY_SIZE as int));
}

/// A cycle that runs leaves one of three dispositions and moves the program
/// counter by it: two bytes on, four bytes on, or to the target. Which one,
/// and where the program counter lands, follows from the machine before the
/// cycle alone: the random byte has no say in it.
pub proof fn lemma_cycle_moves_program_counter(machine: Machine, random_byte: u8, other_byte: u8)
    requires
        machine.shaped(),
        machine.fault() is None,
    ensures
        match machine.step(random_byte).program_counter_state {
            ProgramCounterState::Next => machine.step(random_byte).pc == machine.pc + 2,
            ProgramCounterState::Skip => machine.step(random_byte).pc == machine.pc + 4,
            ProgramCounterState::Jump(target) => machine.step(random_byte).pc == target,
            ProgramCounterState::Unknown => false,
        },
        machine.step(other_byte).program_counter_state == machine.step(
            random_byte,
        ).program_counter_state,
        machine.step(other_byte).pc == machine.step(random_byte).pc,
{
}

/// A cycle that draws no random byte is a function of the machine alone.
pub proof fn lemma_cycle_is_deterministic(machine: Machine, random_byte: u8, other_byte: u8)
    requires
        !machine.draws_random(),
    ensures
        machine.step(other_byte) == machine.step(random_byte),
{
}

/// Eight-bit addition wraps modulo 256: adding a constant to `Vx` keeps the
/// low eight bits of the sum.
pub proof fn lemma_add_constant_wraps(machine: Machine, opcode: u16, random_byte: u8)
    requires
        machine.shaped(),
    ensures
        machine.effect(Instructions::AddVx, opcode, random_byte).v[field_x(opcode)] == (
        machine.v[field_x(opcode)] + field_nn(opcode)) % 0x100,
{
}

/// The flag after the add and the two subtract instructions, for `x` other
/// than the flag register. Add sets the flag exactly where the unsigned sum
/// is above 255. The subtractions set it from the comparison of the two
/// registers as they were before the subtraction: `Vx > Vy` for `Vx - Vy`,
/// `Vy > Vx` for `Vy - Vx`. No other register but `Vx` changes.
pub proof fn lemma_arithmetic_flag(v: Seq<u8>, x: int, y: int)
    requires
        v.len() == NUM_REGISTERS,
        0 <= x < FLAG,
        0 <= y < NUM_REGISTERS,
    ensures
        arithmetic(v, Instructions::AddVxVy, x, y)[FLAG as int] == flag(v[x] + v[y] > 0xFF),
        arithmetic(v, Instructions::SubVxVy, x, y)[FLAG as int] == flag(v[x] > v[y]),
        arithmetic(v, Instructions::SubVyVx, x, y)[FLAG as int] == flag(v[y] > v[x]),
        forall|k: int|
            0 <= k < FLAG && k != x ==> {
                &&& arithmetic(v, Instructions::AddVxVy, x, y)[k] == v[k]
                &&& arithmetic(v, Instructions::SubVxVy, x, y)[k] == v[k]
                &&& arithmetic(v, Instructions::SubVyVx, x, y)[k] == v[k]
            },
{
}

/// The value after the add and the two subtract instructions, for `x` and `y`
/// other than the flag register: the sum or the difference modulo 256.
pub proof fn lemma_arithmetic_wraps(v: Seq<u8>, x: int, y: int)
    requires
        v.len() == NUM_REGISTERS,
        0 <= x < FLAG,
        0 <= y < FLAG,
    ensures
        arithmetic(v, Instructions::AddVxVy, x, y)[x] == (v[x] + v[y]) % 0x100,
        arithmetic(v, Instructions::SubVxVy, x, y)[x] == (v[x] - v[y]) % 0x100,
        arithmetic(v, Instructions::SubVyVx, x, y)[x] == (v[y] - v[x]) % 0x100,
{
}

/// The key that a wait picks is down, and no key above it is; a wait picks no
/// key exactly where every key is up.
pub proof fn lemma_highest_key_down(keypad: Seq<u8>, limit: nat)
    requires
        keypad.len() == KEY_COUNT,
        limit <= KEY_COUNT,
    ensures
        match highest_key_down(keypad, limit) {
            Some(key) => {
                &&& key < limit
                &&& keypad[key as int] != 0
                &&& forall|other: int| key < other < limit ==> keypad[other] == 0
            },
            None => forall|other: int| 0 <= other < limit ==> keypad[other] == 0,
        },
    decreases limit,
{
    if limit > 0 {
        lemma_highest_key_down(keypad, (limit - 1) as nat);
    }
}

} // verus!

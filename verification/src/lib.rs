use vstd::prelude::*;

pub mod chip8_vm;
pub mod resources;

use crate::chip8_vm::display::DisplayState;
use crate::chip8_vm::keyboard::KEY_COUNT;
use crate::chip8_vm::model::{blank_memory, with_font, with_rom, Machine};
use crate::chip8_vm::vm::{Chip8VM, Fault, MAX_ROM_SIZE};

verus! {

/// Frame rate that a front end is expected to pace itself to.
pub const MAX_FRAMES_PER_SECOND: u32 = 60;

/// The mathematical value of a program image.
pub struct RomView {
    pub title: Seq<char>,
    pub path: Seq<char>,
    pub size: u16,
    pub data: Seq<u8>,
}

impl RomView {
    /// The image that stands for "nothing loaded".
    pub open spec fn none() -> RomView {
        RomView { title: Seq::empty(), path: Seq::empty(), size: 0, data: Seq::empty() }
    }
}

/// A program image: raw bytes with the name and place they came from. The
/// size is the byte count as a 16-bit number.
pub struct Rom {
    title: String,
    path: String,
    size: u16,
    data: Vec<u8>,
}

impl View for Rom {
    type V = RomView;

    closed spec fn view(&self) -> RomView {
        RomView { title: self.title@, path: self.path@, size: self.size, data: self.data@ }
    }
}

impl Rom {
    /// A program image of the given bytes. The size keeps the low sixteen bits
    /// of the byte count.
    pub fn new(title: String, path: String, data: Vec<u8>) -> (rom: Self)
        ensures
            rom@ == (RomView {
                title: title@,
                path: path@,
                size: (data@.len() % 0x10000) as u16,
                data: data@,
            }),
    {
        let size: u16 = (data.len() % 0x10000) as u16;
        Rom { title, path, size, data }
    }

    pub fn get_title(&self) -> (title: String)
        ensures
            title@ == self@.title,
    {
        self.title.clone()
    }
}

/// The mathematical value of an emulator: its machine and the image loaded.
pub struct EmulatorView {
    pub machine: Machine,
    pub rom: RomView,
}

/// A machine together with the program image it runs.
pub struct Emulator {
    pub chip8_vm: Chip8VM,
    pub current_room: Rom,
}

impl View for Emulator {
    type V = EmulatorView;

    open spec fn view(&self) -> EmulatorView {
        EmulatorView { machine: self.chip8_vm@, rom: self.current_room@ }
    }
}

impl Emulator {
    /// A new machine with the font installed and nothing loaded.
    pub fn new() -> (emulator: Self)
        ensures
            emulator@ == (EmulatorView {
                machine: Machine { ram: with_font(blank_memory()), ..Machine::fresh() },
                rom: RomView::none(),
            }),
    {
        let mut chip8_vm: Chip8VM = Chip8VM::new();
        chip8_vm.init_fontset();
        Emulator {
            chip8_vm,
            current_room: Rom { title: String::new(), path: String::new(), size: 0, data: Vec::new() },
        }
    }

    /// Takes `rom` as the current image, resets the machine and copies the
    /// image to the start address. The font stays where it is, below the
    /// start address.
    pub fn load_rom(&mut self, rom: Rom)
        requires
            rom@.data.len() <= MAX_ROM_SIZE,
        ensures
            final(self)@ == (EmulatorView {
                machine: Machine {
                    ram: with_rom(with_font(blank_memory()), rom@.data),
                    ..Machine::after_reset()
                },
                rom: rom@,
            }),
    {
        self.current_room = rom;
        self.stop_emulation();
        let data: Vec<u8> = self.current_room.data.clone();
        assert(data@ =~= self.current_room.data@);
        self.chip8_vm.load_rom(data);
    }

    /// Resets the machine and installs the font again. The image stays, but
    /// memory no longer holds it.
    pub fn stop_emulation(&mut self)
        ensures
            final(self)@ == (EmulatorView {
                machine: Machine { ram: with_font(blank_memory()), ..Machine::after_reset() },
                rom: old(self)@.rom,
            }),
    {
        self.chip8_vm.reset();
        self.chip8_vm.init_fontset();
    }

    /// Whether the last writer of the framebuffer drew.
    pub fn is_draw_flag_set(&mut self) -> (drew: bool)
        ensures
            drew == (old(self)@.machine.display.state == DisplayState::Draw),
            *final(self) == *old(self),
    {
        self.chip8_vm.display.state == DisplayState::Draw
    }

    /// Whether a tone is to be heard: the sound timer is above zero.
    pub fn is_sound_flag_set(&mut self) -> (sounding: bool)
        ensures
            sounding == (old(self)@.machine.timers.sound > 0),
            *final(self) == *old(self),
    {
        self.chip8_vm.timers.get_sound_timer() > 0
    }

    /// The framebuffer as opaque RGBA bytes, row-major.
    pub fn get_color_bufer(&mut self) -> (color_buffer: Vec<u8>)
        ensures
            color_buffer@ == old(self)@.machine.display.colors(),
            *final(self) == *old(self),
    {
        self.chip8_vm.display.get_color_buffer()
    }

    /// Records that key `key` went down (`state`) or up.
    pub fn handle_input(&mut self, key: u8, state: bool)
        requires
            key < KEY_COUNT,
        ensures
            final(self)@ == (EmulatorView {
                machine: Machine {
                    keypad: old(self)@.machine.keypad.update(
                        key as int,
                        if state {
                            1u8
                        } else {
                            0u8
                        },
                    ),
                    ..old(self)@.machine
                },
                rom: old(self)@.rom,
            }),
    {
        self.chip8_vm.keypad.set_key(
            key,
            if state {
                1
            } else {
                0
            },
        )
    }

    /// Runs `number_of_cycles` cycles and then ticks the timers once. With no
    /// image loaded nothing happens. A fault ends the run at once: the machine
    /// stays halted, the timers are not ticked and the fault is reported.
    ///
    /// # Panics
    ///
    /// A cycle that draws a random byte panics where the operating system
    /// gives the random number generator no seed.
    pub fn emulate_cycles(&mut self, number_of_cycles: u8) -> (result: Result<(), Fault>)
        ensures
            final(self)@.rom == old(self)@.rom,
            old(self)@.rom.size == 0 ==> result is Ok && final(self)@ == old(self)@,
            old(self)@.rom.size != 0 ==> exists|random_bytes: Seq<u8>|
                {
                    &&& random_bytes.len() == number_of_cycles
                    &&& match (#[trigger] old(self)@.machine.after_cycles(random_bytes)).1 {
                        Some(fault) => {
                            &&& result == Err::<(), Fault>(fault)
                            &&& final(self)@.machine == old(self)@.machine.after_cycles(
                                random_bytes,
                            ).0
                        },
                        None => {
                            &&& result is Ok
                            &&& final(self)@.machine == (Machine {
                                timers: old(self)@.machine.after_cycles(
                                    random_bytes,
                                ).0.timers.tick(),
                                ..old(self)@.machine.after_cycles(random_bytes).0
                            })
                        },
                    }
                },
    {
        if self.current_room.size == 0 {
            return Ok(());
        }
        let ghost start = self.chip8_vm@;
        let ghost mut random_bytes: Seq<u8> = Seq::empty();
        let mut done: u8 = 0;
        while done < number_of_cycles
            invariant
                done <= number_of_cycles,
                self.current_room == old(self).current_room,
                old(self)@.rom.size != 0,
                start == old(self)@.machine,
                random_bytes.len() == done,
                start.after_cycles(random_bytes) == (self.chip8_vm@, None::<Fault>),
            decreases number_of_cycles - done,
        {
            let ghost before = self.chip8_vm@;
            let outcome = self.chip8_vm.cycle();
            proof {
                let byte = choose|byte: u8| self.chip8_vm@ == before.step(byte);
                lemma_one_more_cycle(start, random_bytes, byte);
                random_bytes = random_bytes.push(byte);
            }
            if let Err(fault) = outcome {
                proof {
                    let padding = Seq::new((number_of_cycles - done - 1) as nat, |i: int| 0u8);
                    lemma_stopped_run_stays(start, random_bytes, padding);
                    assert((random_bytes + padding).len() == number_of_cycles);
                    assert(start.after_cycles(random_bytes + padding) == (
                        self.chip8_vm@,
                        Some(fault),
                    ));
                }
                return Err(fault);
            }
            done += 1;
        }
        self.chip8_vm.timers.update_timers();
        Ok(())
    }
}

/// A run that no fault has stopped goes on by one cycle of the machine it has
/// reached.
pub proof fn lemma_one_more_cycle(machine: Machine, random_bytes: Seq<u8>, byte: u8)
    requires
        machine.after_cycles(random_bytes).1 is None,
    ensures
        machine.after_cycles(random_bytes.push(byte)) == (
            machine.after_cycles(random_bytes).0.step(byte),
            machine.after_cycles(random_bytes).0.fault(),
        ),
{
    assert(random_bytes.push(byte).drop_last() =~= random_bytes);
}

/// A run that a fault has stopped is not changed by asking for more cycles.
pub proof fn lemma_stopped_run_stays(machine: Machine, random_bytes: Seq<u8>, more: Seq<u8>)
    requires
        machine.after_cycles(random_bytes).1 is Some,
    ensures
        machine.after_cycles(random_bytes + more) == machine.after_cycles(random_bytes),
    decreases more.len(),
{
    if more.len() == 0 {
        assert(random_bytes + more =~= random_bytes);
    } else {
        lemma_stopped_run_stays(machine, random_bytes, more.drop_last());
        assert((random_bytes + more).drop_last() =~= random_bytes + more.drop_last());
    }
}

} // verus!

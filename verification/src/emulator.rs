//! The orchestrator: owns bus, CPU, PPU and cartridge and drives them in step.

use crate::bus::{mem_load, MemoryBus, BOOT_WINDOW};
use crate::cartridge::{header_of, Cartridge, CartridgeHeader};
use crate::cpu::{Cpu, CpuState};
use crate::ppu::{Timing, FRAME_BYTES, LINE_BYTES, PPU};
use crate::register::RegState;
use crate::semantics::{step_spec, DecodeError};
use vstd::prelude::*;

verus! {

/// Bus address at which a program image is loaded.
pub const ROM_ORIGIN: u16 = 0x0100;

/// Number of bytes of a program image that are loaded: they fill
/// `0x0100..0x7FFF`.
pub const ROM_LOAD_BYTES: usize = 0x7EFF;

/// Clock cycles per second.
pub const CLOCK_SPEED: u32 = 4_194_304;

/// Clock cycles in one frame: 154 lines of 456 cycles.
pub const CYCLES_PER_FRAME: u32 = 70224;

/// Nanoseconds that a frame is given on the host.
pub const TARGET_WAIT_TIME: u64 = 1666666667;

/// Counts the cycles spent towards the frame that is being produced.
pub struct FrameClock {
    cycles: u32,
}

impl FrameClock {
    #[verifier::type_invariant]
    spec fn inv(self) -> bool {
        self.cycles < CYCLES_PER_FRAME
    }

    /// Cycles spent since the last frame was due.
    pub closed spec fn spent(&self) -> u32 {
        self.cycles
    }

    /// A clock with no cycles spent.
    pub fn new() -> (clock: FrameClock)
        ensures
            clock.spent() == 0,
    {
        FrameClock { cycles: 0 }
    }

    /// Cycles spent since the last frame was due; always below a frame's worth.
    pub fn cycles(&self) -> (cycles: u32)
        ensures
            cycles == self.spent(),
            cycles < CYCLES_PER_FRAME,
    {
        proof {
            use_type_invariant(self);
        }
        self.cycles
    }

    /// Adds `cycles` to the count and says whether a frame is due. When one
    /// is, the count starts again from zero.
    pub fn spend(&mut self, cycles: u32) -> (frame_due: bool)
        ensures
            frame_due == (old(self).spent() + cycles >= CYCLES_PER_FRAME),
            final(self).spent() == if frame_due {
                0
            } else {
                (old(self).spent() + cycles) as u32
            },
    {
        proof {
            use_type_invariant(&*self);
        }
        let total: u64 = self.cycles as u64 + cycles as u64;
        if total >= CYCLES_PER_FRAME as u64 {
            self.cycles = 0;
            true
        } else {
            self.cycles = total as u32;
            false
        }
    }
}

/// How long to wait, in nanoseconds, after a frame that took `elapsed`
/// nanoseconds: what is left of the frame's time, if anything.
pub fn frame_wait(elapsed: u64) -> (wait: u64)
    ensures
        wait == if elapsed < TARGET_WAIT_TIME {
            TARGET_WAIT_TIME - elapsed
        } else {
            0
        },
{
    if elapsed < TARGET_WAIT_TIME {
        TARGET_WAIT_TIME - elapsed
    } else {
        0
    }
}

pub struct Emulator {
    pub cart: Cartridge,
    pub mem_bus: MemoryBus,
    pub cpu: Cpu,
    pub ppu: PPU,
}

impl Emulator {
    /// An emulator at power-on: memory and frame all zero, no cartridge.
    pub fn init_emulator() -> (emulator: Emulator)
        ensures
            emulator.cpu@ == (CpuState { reg: RegState::power_on(), ime: false }),
            emulator.mem_bus@ == Seq::new(0x10000, |a: int| 0u8),
            emulator.mem_bus.spare_cell() == 0,
            emulator.ppu.timing_spec() == Timing::start(),
            emulator.ppu.lyc_spec() == 0,
            emulator.ppu.stat_spec() == 0,
            emulator.ppu.frame() == Seq::new(FRAME_BYTES as nat, |i: int| 0u8),
            emulator.ppu.line() == Seq::new(LINE_BYTES as nat, |i: int| 0u8),
            emulator.cart.filename@ == Seq::<char>::empty(),
            emulator.cart.size == 0,
            emulator.cart.data@ == Seq::<u8>::empty(),
            emulator.cart.header@ == CartridgeHeader::blank(),
    {
        Emulator {
            cart: Cartridge::init_cartridge(),
            mem_bus: MemoryBus::init_bus(),
            cpu: Cpu::init_cpu(),
            ppu: PPU::init_ppu(),
        }
    }

    /// Puts the CPU in the state a boot image would have left it in, ready
    /// to run the cartridge from `0x0100`.
    pub fn init_emulator_without_bootrom(&mut self)
        ensures
            final(self).cpu@ == (CpuState { reg: RegState::post_boot(), ime: false }),
            final(self).mem_bus == old(self).mem_bus,
            final(self).ppu == old(self).ppu,
            final(self).cart == old(self).cart,
    {
        self.cpu = Cpu::init_cpu();
        self.cpu.reg.program_counter = 0x0100;
    }

    /// Installs the boot image if there is one, and says whether there was.
    /// With an image, its first 256 bytes are written over `0x0000..0x0100`
    /// and the CPU is left alone. Without one, the CPU falls back to the
    /// state a boot image would have left it in.
    pub fn load_boot_rom(&mut self, image: Option<Vec<u8>>) -> (loaded: bool)
        ensures
            loaded == image.is_some(),
            match image {
                Some(data) => {
                    &&& final(self).mem_bus@ == mem_load(
                        old(self).mem_bus@,
                        0,
                        data@.take(
                            if data@.len() < BOOT_WINDOW {
                                data@.len() as int
                            } else {
                                BOOT_WINDOW as int
                            },
                        ),
                    )
                    &&& final(self).mem_bus.spare_cell() == old(self).mem_bus.spare_cell()
                    &&& final(self).cpu == old(self).cpu
                },
                None => {
                    &&& final(self).mem_bus == old(self).mem_bus
                    &&& final(self).cpu@ == (CpuState { reg: RegState::post_boot(), ime: false })
                },
            },
            final(self).ppu == old(self).ppu,
            final(self).cart == old(self).cart,
    {
        match image {
            Some(data) => {
                self.mem_bus.load_boot_rom(&data);
                true
            },
            None => {
                self.init_emulator_without_bootrom();
                false
            },
        }
    }

    /// Takes over the program image `data` as the cartridge `filename` and
    /// copies its first `0x7EFF` bytes to `0x0100..0x7FFF`.
    pub fn load_rom(&mut self, filename: &str, data: Vec<u8>)
        requires
            data@.len() >= ROM_LOAD_BYTES,
        ensures
            final(self).cart.filename@ == filename@,
            final(self).cart.data@ == data@,
            final(self).cart.header@ == header_of(data@),
            final(self).cart.size == old(self).cart.size,
            final(self).mem_bus@ == mem_load(
                old(self).mem_bus@,
                ROM_ORIGIN,
                data@.take(ROM_LOAD_BYTES as int),
            ),
            final(self).mem_bus.spare_cell() == old(self).mem_bus.spare_cell(),
            final(self).cpu == old(self).cpu,
            final(self).ppu == old(self).ppu,
    {
        self.cart.load_cartridge(filename, data);
        self.mem_bus.load_bytes(ROM_ORIGIN, &self.cart.data, ROM_LOAD_BYTES);
    }

    /// Runs one CPU instruction and advances the PPU by the cycles it took.
    /// On a decode error the PPU is not advanced.
    pub fn emulation_cycle(&mut self) -> (result: Result<u32, DecodeError>)
        ensures
            final(self).cpu@ == step_spec(old(self).cpu@, old(self).mem_bus@).cpu,
            final(self).mem_bus@ == step_spec(old(self).cpu@, old(self).mem_bus@).mem,
            final(self).mem_bus.spare_cell() == old(self).mem_bus.spare_cell(),
            result == step_spec(old(self).cpu@, old(self).mem_bus@).result,
            match result {
                Ok(cycles) => old(self).ppu.steps_to(&final(self).ppu, cycles),
                Err(_) => final(self).ppu == old(self).ppu,
            },
            final(self).cart == old(self).cart,
    {
        let result = self.cpu.step(&mut self.mem_bus);
        match result {
            Ok(cycles) => self.ppu.step(cycles),
            Err(_) => {},
        }
        result
    }
}

} // verus!

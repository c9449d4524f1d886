//! The 64 KiB address space and its fixed partition into byte regions.

use crate::bits::{high_byte, lemma_join, lemma_split, low_byte, word};
use vstd::prelude::*;

verus! {

/// Number of addresses on the bus.
pub const ADDRESS_SPACE: usize = 0x10000;

/// Whether `address` falls inside one of the backed regions. Everything else
/// (the echo area `0xE000..0xFE00` and the gap `0xFEA0..0xFF00`) is unmapped.
pub open spec fn is_mapped(address: u16) -> bool {
    address < 0xE000 || (0xFE00 <= address && address < 0xFEA0) || 0xFF00 <= address
}

/// Memory after a byte store: a mapped cell takes the value, an unmapped
/// address discards it.
pub open spec fn mem_write(mem: Seq<u8>, address: u16, value: u8) -> Seq<u8> {
    if is_mapped(address) {
        mem.update(address as int, value)
    } else {
        mem
    }
}

/// The address that follows `address`, wrapping from `0xFFFF` to `0x0000`.
pub open spec fn next_address(address: u16) -> u16 {
    if address == 0xFFFF {
        0
    } else {
        (address + 1) as u16
    }
}

/// Little-endian 16-bit load: low byte at `address`, high byte at the next address.
pub open spec fn mem_read_short(mem: Seq<u8>, address: u16) -> u16 {
    word(mem[next_address(address) as int], mem[address as int])
}

/// Little-endian 16-bit store: low byte first, then the high byte at the next address.
pub open spec fn mem_write_short(mem: Seq<u8>, address: u16, value: u16) -> Seq<u8> {
    mem_write(mem_write(mem, address, low_byte(value)), next_address(address), high_byte(value))
}

/// Memory after the bytes `bytes` were stored one by one from `origin`
/// upwards; bytes that fall on unmapped addresses are discarded.
pub open spec fn mem_load(mem: Seq<u8>, origin: u16, bytes: Seq<u8>) -> Seq<u8> {
    Seq::new(
        mem.len(),
        |a: int|
            if origin <= a < origin + bytes.len() && is_mapped(a as u16) {
                bytes[a - origin]
            } else {
                mem[a]
            },
    )
}

/// Size of the window that a boot image occupies, from address 0.
pub const BOOT_WINDOW: usize = 0x100;

pub struct MemoryBus {
    /// 16 KiB ROM bank 0, `0x0000..=0x3FFF`.
    pub rom_bank_0: [u8; 0x4000],
    /// 16 KiB switchable ROM bank, `0x4000..=0x7FFF`.
    pub rom_bank_n: [u8; 0x4000],
    /// 8 KiB video RAM, `0x8000..=0x9FFF`.
    pub vram: [u8; 0x2000],
    /// 8 KiB external RAM, `0xA000..=0xBFFF`.
    pub ext_ram: [u8; 0x2000],
    /// 8 KiB work RAM, `0xC000..=0xDFFF`.
    pub work_ram: [u8; 0x2000],
    /// Sprite attribute table, `0xFE00..=0xFE9F`.
    pub sprite_attrib_ram: [u8; 0xa0],
    /// I/O registers, `0xFF00..=0xFF7F`.
    pub io_registers: [u8; 0x80],
    /// High RAM, `0xFF80..=0xFFFE`; the last cell of the array is never addressed.
    pub high_ram: [u8; 0x80],
    /// Interrupt-enable register, `0xFFFF`.
    pub interrupt_enable: u8,
}

impl MemoryBus {
    /// The last cell of `high_ram`. No address reaches it, so the view does
    /// not show it; no operation of the bus changes it.
    pub open spec fn spare_cell(&self) -> u8 {
        self.high_ram@[0x7F]
    }

    /// The byte the bus presents at address `a`.
    pub open spec fn byte_at(&self, a: int) -> u8 {
        if 0 <= a < 0x4000 {
            self.rom_bank_0@[a]
        } else if 0x4000 <= a < 0x8000 {
            self.rom_bank_n@[a - 0x4000]
        } else if 0x8000 <= a < 0xA000 {
            self.vram@[a - 0x8000]
        } else if 0xA000 <= a < 0xC000 {
            self.ext_ram@[a - 0xA000]
        } else if 0xC000 <= a < 0xE000 {
            self.work_ram@[a - 0xC000]
        } else if 0xFE00 <= a < 0xFEA0 {
            self.sprite_attrib_ram@[a - 0xFE00]
        } else if 0xFF00 <= a < 0xFF80 {
            self.io_registers@[a - 0xFF00]
        } else if 0xFF80 <= a < 0xFFFF {
            self.high_ram@[a - 0xFF80]
        } else if a == 0xFFFF {
            self.interrupt_enable
        } else {
            0
        }
    }
}

impl View for MemoryBus {
    type V = Seq<u8>;

    /// The bus as one sequence of `0x10000` bytes indexed by address.
    closed spec fn view(&self) -> Seq<u8> {
        Seq::new(ADDRESS_SPACE as nat, |a: int| self.byte_at(a))
    }
}

impl MemoryBus {
    /// A bus with every byte zero.
    pub fn init_bus() -> (bus: MemoryBus)
        ensures
            bus@ == Seq::new(ADDRESS_SPACE as nat, |a: int| 0u8),
            bus.spare_cell() == 0,
    {
        let bus = MemoryBus {
            rom_bank_0: [0; 0x4000],
            rom_bank_n: [0; 0x4000],
            vram: [0; 0x2000],
            ext_ram: [0; 0x2000],
            work_ram: [0; 0x2000],
            sprite_attrib_ram: [0; 0xa0],
            io_registers: [0; 0x80],
            high_ram: [0; 0x80],
            interrupt_enable: 0,
        };
        assert(bus@ =~= Seq::new(ADDRESS_SPACE as nat, |a: int| 0u8));
        bus
    }

    /// The byte at `address`; an unmapped address reads as zero.
    pub fn read_byte(&self, address: u16) -> (value: u8)
        ensures
            value == self@[address as int],
            !is_mapped(address) ==> value == 0,
    {
        match address {
            0x0000..=0x3FFF => self.rom_bank_0[address as usize],
            0x4000..=0x7FFF => self.rom_bank_n[address as usize - 0x4000],
            0x8000..=0x9FFF => self.vram[address as usize - 0x8000],
            0xA000..=0xBFFF => self.ext_ram[address as usize - 0xA000],
            0xC000..=0xDFFF => self.work_ram[address as usize - 0xC000],
            0xFE00..=0xFE9F => self.sprite_attrib_ram[address as usize - 0xFE00],
            0xFF00..=0xFF7F => self.io_registers[address as usize - 0xFF00],
            0xFF80..=0xFFFE => self.high_ram[address as usize - 0xFF80],
            0xFFFF => self.interrupt_enable,
            _ => 0,
        }
    }

    /// Stores `value` at `address`; a store to an unmapped address is discarded.
    pub fn write_byte(&mut self, address: u16, value: u8)
        ensures
            final(self)@ == mem_write(old(self)@, address, value),
            final(self).spare_cell() == old(self).spare_cell(),
            !is_mapped(address) ==> *final(self) == *old(self),
    {
        match address {
            0x0000..=0x3FFF => self.rom_bank_0[address as usize] = value,
            0x4000..=0x7FFF => self.rom_bank_n[address as usize - 0x4000] = value,
            0x8000..=0x9FFF => self.vram[address as usize - 0x8000] = value,
            0xA000..=0xBFFF => self.ext_ram[address as usize - 0xA000] = value,
            0xC000..=0xDFFF => self.work_ram[address as usize - 0xC000] = value,
            0xFE00..=0xFE9F => self.sprite_attrib_ram[address as usize - 0xFE00] = value,
            0xFF00..=0xFF7F => self.io_registers[address as usize - 0xFF00] = value,
            0xFF80..=0xFFFE => self.high_ram[address as usize - 0xFF80] = value,
            0xFFFF => self.interrupt_enable = value,
            _ => (),
        }
        assert(self@ =~= mem_write(old(self)@, address, value));
    }

    /// The little-endian word at `address` and the address after it.
    pub fn read_short(&self, address: u16) -> (value: u16)
        ensures
            value == mem_read_short(self@, address),
    {
        let lo: u16 = self.read_byte(address) as u16;
        let hi: u16 = self.read_byte(address.wrapping_add(1)) as u16;
        proof {
            lemma_join(hi as u8, lo as u8);
        }
        (hi << 8) | (lo & 0x00FF)
    }

    /// Stores `value` little-endian at `address` and the address after it.
    pub fn write_short(&mut self, address: u16, value: u16)
        ensures
            final(self)@ == mem_write_short(old(self)@, address, value),
            final(self).spare_cell() == old(self).spare_cell(),
    {
        let hi: u8 = ((value >> 8) & 0x00FF) as u8;
        let lo: u8 = (value & 0x00FF) as u8;
        proof {
            lemma_split(value);
        }
        self.write_byte(address, lo);
        self.write_byte(address.wrapping_add(1), hi);
    }

    /// Stores the first `count` bytes of `data` at `origin`, `origin + 1`, ...
    pub fn load_bytes(&mut self, origin: u16, data: &Vec<u8>, count: usize)
        requires
            count <= data.len(),
            origin + count <= ADDRESS_SPACE,
        ensures
            final(self)@ == mem_load(old(self)@, origin, data@.take(count as int)),
            final(self).spare_cell() == old(self).spare_cell(),
    {
        let mut i: usize = 0;
        assert(self@ =~= mem_load(old(self)@, origin, data@.take(0)));
        while i < count
            invariant
                i <= count,
                count <= data.len(),
                origin + count <= ADDRESS_SPACE,
                self@ == mem_load(old(self)@, origin, data@.take(i as int)),
                self.spare_cell() == old(self).spare_cell(),
            decreases count - i,
        {
            let address = (origin as usize + i) as u16;
            self.write_byte(address, data[i]);
            i += 1;
            assert(self@ =~= mem_load(old(self)@, origin, data@.take(i as int)));
        }
    }

    /// Writes a boot image over the window `0x0000..0x0100`; what the image
    /// holds beyond the window is ignored.
    pub fn load_boot_rom(&mut self, data: &Vec<u8>)
        ensures
            final(self)@ == mem_load(
                old(self)@,
                0,
                data@.take(
                    if data@.len() < BOOT_WINDOW {
                        data@.len() as int
                    } else {
                        BOOT_WINDOW as int
                    },
                ),
            ),
            final(self).spare_cell() == old(self).spare_cell(),
    {
        let count = if data.len() < BOOT_WINDOW {
            data.len()
        } else {
            BOOT_WINDOW
        };
        self.load_bytes(0, data, count);
    }

    /// The view spans the whole address space and holds at each address
    /// the byte of the region that backs it.
    pub proof fn lemma_view_len(self)
        ensures
            self@.len() == ADDRESS_SPACE,
            forall|a: int| 0 <= a < ADDRESS_SPACE ==> self@[a] == #[trigger] self.byte_at(a),
    {
    }

    /// The view and the spare cell together are all a bus holds: two buses
    /// that agree on both are equal, region by region.
    pub proof fn lemma_determined_by_view(self, other: MemoryBus)
        requires
            self@ == other@,
            self.spare_cell() == other.spare_cell(),
        ensures
            self == other,
    {
        assert forall|a: int| 0 <= a < ADDRESS_SPACE implies self.byte_at(a) == other.byte_at(
            a,
        ) by {
            assert(self@[a] == self.byte_at(a));
            assert(other@[a] == other.byte_at(a));
        }
        assert(self.rom_bank_0 =~= other.rom_bank_0) by {
            assert forall|i: int| 0 <= i < 0x4000 implies self.rom_bank_0@[i]
                == other.rom_bank_0@[i] by {
                assert(self.byte_at(i) == other.byte_at(i));
            }
        }
        assert(self.rom_bank_n =~= other.rom_bank_n) by {
            assert forall|i: int| 0 <= i < 0x4000 implies self.rom_bank_n@[i]
                == other.rom_bank_n@[i] by {
                assert(self.byte_at(i + 0x4000) == other.byte_at(i + 0x4000));
            }
        }
        assert(self.vram =~= other.vram) by {
            assert forall|i: int| 0 <= i < 0x2000 implies self.vram@[i] == other.vram@[i] by {
                assert(self.byte_at(i + 0x8000) == other.byte_at(i + 0x8000));
            }
        }
        assert(self.ext_ram =~= other.ext_ram) by {
            assert forall|i: int| 0 <= i < 0x2000 implies self.ext_ram@[i] == other.ext_ram@[i] by {
                assert(self.byte_at(i + 0xA000) == other.byte_at(i + 0xA000));
            }
        }
        assert(self.work_ram =~= other.work_ram) by {
            assert forall|i: int| 0 <= i < 0x2000 implies self.work_ram@[i]
                == other.work_ram@[i] by {
                assert(self.byte_at(i + 0xC000) == other.byte_at(i + 0xC000));
            }
        }
        assert(self.sprite_attrib_ram =~= other.sprite_attrib_ram) by {
            assert forall|i: int| 0 <= i < 0xa0 implies self.sprite_attrib_ram@[i]
                == other.sprite_attrib_ram@[i] by {
                assert(self.byte_at(i + 0xFE00) == other.byte_at(i + 0xFE00));
            }
        }
        assert(self.io_registers =~= other.io_registers) by {
            assert forall|i: int| 0 <= i < 0x80 implies self.io_registers@[i]
                == other.io_registers@[i] by {
                assert(self.byte_at(i + 0xFF00) == other.byte_at(i + 0xFF00));
            }
        }
        assert(self.high_ram =~= other.high_ram) by {
            assert forall|i: int| 0 <= i < 0x80 implies self.high_ram@[i]
                == other.high_ram@[i] by {
                if i < 0x7F {
                    assert(self.byte_at(i + 0xFF80) == other.byte_at(i + 0xFF80));
                }
            }
        }
        assert(self.interrupt_enable == other.interrupt_enable) by {
            assert(self.byte_at(0xFFFF) == other.byte_at(0xFFFF));
        }
    }

    /// A byte stored at a mapped address is the byte read back from it; this
    /// holds at every mapped address, all of video RAM (`0x8000..=0x9FFF`)
    /// included.
    pub proof fn lemma_write_then_read(self, address: u16, value: u8)
        requires
            is_mapped(address),
        ensures
            mem_write(self@, address, value)[address as int] == value,
    {
    }

    /// An unmapped address reads as zero, before and after any store.
    pub proof fn lemma_unmapped_reads_zero(self, address: u16, stored_at: u16, stored: u8)
        requires
            !is_mapped(address),
        ensures
            self@[address as int] == 0,
            mem_write(self@, stored_at, stored)[address as int] == 0,
    {
    }

    /// A 16-bit store followed by a 16-bit load at the same address gives the
    /// stored word back, provided both cells the word occupies are mapped.
    pub proof fn lemma_short_round_trip(self, address: u16, value: u16)
        requires
            is_mapped(address),
            is_mapped(next_address(address)),
        ensures
            mem_read_short(mem_write_short(self@, address, value), address) == value,
    {
    }
}

} // verus!

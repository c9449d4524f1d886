//! The cartridge image and the header stored at fixed offsets in it.

use crate::bits::{lemma_join, word};
use vstd::prelude::*;

verus! {

/// First byte of the header.
pub const HEADER_START: usize = 0x104;

/// One past the last byte of the header.
pub const HEADER_END: usize = 0x150;

/// The logo that an official cartridge carries at `0x104..0x134`.
pub const NINTENDO_LOGO: [u8; 48] = [
    0xCE, 0xED, 0x66, 0x66, 0xCC, 0x0D, 0x00, 0x0B, 0x03, 0x73, 0x00, 0x83, 0x00, 0x0C, 0x00,
    0x0D, 0x00, 0x08, 0x11, 0x1F, 0x88, 0x89, 0x00, 0x0E, 0xDC, 0xCC, 0x6E, 0xE6, 0xDD, 0xDD,
    0xD9, 0x99, 0xBB, 0xBB, 0x67, 0x63, 0x6E, 0x0E, 0xEC, 0xCC, 0xDD, 0xDC, 0x99, 0x9F, 0xBB,
    0xB9, 0x33, 0x3E,
];

/// Names of the cartridge types, indexed by the type code of the header.
pub const CART_TYPE: [&'static str; 35] = [
    "ROM ONLY",
    "MBC1",
    "MBC1+RAM",
    "MBC1+RAM+BATTERY",
    "0x04 ???",
    "MBC2",
    "MBC2+BATTERY",
    "0x07 ???",
    "ROM+RAM 1",
    "ROM+RAM+BATTERY 1",
    "0x0A ???",
    "MMM01",
    "MMM01+RAM",
    "MMM01+RAM+BATTERY",
    "0x0E ???",
    "MBC3+TIMER+BATTERY",
    "MBC3+TIMER+RAM+BATTERY 2",
    "MBC3",
    "MBC3+RAM 2",
    "MBC3+RAM+BATTERY 2",
    "0x14 ???",
    "0x15 ???",
    "0x16 ???",
    "0x17 ???",
    "0x18 ???",
    "MBC5",
    "MBC5+RAM",
    "MBC5+RAM+BATTERY",
    "MBC5+RUMBLE",
    "MBC5+RUMBLE+RAM",
    "MBC5+RUMBLE+RAM+BATTERY",
    "0x1F ???",
    "MBC6",
    "0x21 ???",
    "MBC7+SENSOR+RUMBLE+RAM+BATTERY",
];

/// The largest ROM size code by which 32 bits can be shifted.
pub const MAX_ROM_SIZE_CODE: u8 = 31;

/// The name of the RAM size with code `code`.
pub open spec fn ram_size_name_of(code: u8) -> Seq<char> {
    if code == 0 {
        "None"@
    } else if code == 1 {
        "Unused"@
    } else if code == 2 {
        "8KB"@
    } else if code == 3 {
        "32KB"@
    } else if code == 4 {
        "128KB"@
    } else if code == 5 {
        "64KB"@
    } else {
        "Unknown"@
    }
}

/// What a header holds.
pub struct HeaderState {
    pub logo: Seq<u8>,
    pub title: Seq<u8>,
    pub manufacturer_code: Seq<u8>,
    pub cgb_flag: u8,
    pub sgb_flag: u8,
    pub cartridge_type: u8,
    pub rom_size: u8,
    pub ram_size: u8,
    pub mask_rom_version: u8,
    pub header_checksum: u8,
    pub global_checksum: u16,
}

/// The header fields of the image `data`, each read at its fixed offset.
pub open spec fn header_of(data: Seq<u8>) -> HeaderState {
    HeaderState {
        logo: data.subrange(0x104, 0x134),
        title: data.subrange(0x134, 0x13F),
        manufacturer_code: data.subrange(0x13F, 0x143),
        cgb_flag: data[0x143],
        sgb_flag: data[0x146],
        cartridge_type: data[0x147],
        rom_size: data[0x148],
        ram_size: data[0x149],
        mask_rom_version: data[0x14C],
        header_checksum: data[0x14D],
        global_checksum: word(data[0x14E], data[0x14F]),
    }
}

/// The sum of `-b - 1` over the bytes `b` of `bytes`.
pub open spec fn complement_sum(bytes: Seq<u8>) -> int
    decreases bytes.len(),
{
    if bytes.len() == 0 {
        0
    } else {
        complement_sum(bytes.drop_last()) - bytes.last() - 1
    }
}

/// The checksum of the header bytes `0x134..0x14D` of `data`.
pub open spec fn header_checksum_of(data: Seq<u8>) -> u8 {
    (complement_sum(data.subrange(0x134, 0x14D)) % 256) as u8
}

pub struct CartridgeHeader {
    pub logo: [u8; 48],
    pub title: [u8; 11],
    pub manufacturer_code: [u8; 4],
    pub cgb_flag: u8,
    pub sgb_flag: u8,
    pub cartridge_type: u8,
    pub rom_size: u8,
    pub ram_size: u8,
    pub mask_rom_version: u8,
    pub header_checksum: u8,
    pub global_checksum: u16,
}

impl View for CartridgeHeader {
    type V = HeaderState;

    open spec fn view(&self) -> HeaderState {
        HeaderState {
            logo: self.logo@,
            title: self.title@,
            manufacturer_code: self.manufacturer_code@,
            cgb_flag: self.cgb_flag,
            sgb_flag: self.sgb_flag,
            cartridge_type: self.cartridge_type,
            rom_size: self.rom_size,
            ram_size: self.ram_size,
            mask_rom_version: self.mask_rom_version,
            header_checksum: self.header_checksum,
            global_checksum: self.global_checksum,
        }
    }
}

pub struct Cartridge {
    pub filename: String,
    pub size: u32,
    pub data: Vec<u8>,
    pub header: CartridgeHeader,
}

fn copy_bytes<const N: usize>(dst: &mut [u8; N], data: &Vec<u8>, start: usize)
    requires
        start + N <= data.len(),
    ensures
        final(dst)@ == data@.subrange(start as int, start + N),
{
    let mut i: usize = 0;
    while i < N
        invariant
            i <= N,
            start + N <= data.len(),
            forall|j: int| 0 <= j < i ==> dst@[j] == data@[start + j],
        decreases N - i,
    {
        dst[i] = data[start + i];
        i += 1;
    }
    assert(dst@ =~= data@.subrange(start as int, start + N));
}

impl Cartridge {
    /// No cartridge: no name, no data, a blank header.
    pub fn init_cartridge() -> (cart: Cartridge)
        ensures
            cart.filename@ == Seq::<char>::empty(),
            cart.size == 0,
            cart.data@ == Seq::<u8>::empty(),
            cart.header@ == CartridgeHeader::blank(),
    {
        Cartridge {
            filename: String::new(),
            size: 0,
            data: Vec::new(),
            header: CartridgeHeader::init_header(),
        }
    }

    /// Takes over the image `data` under the name `filename` and reads its header.
    pub fn load_cartridge(&mut self, filename: &str, data: Vec<u8>)
        requires
            data@.len() >= HEADER_END,
        ensures
            final(self).filename@ == filename@,
            final(self).data@ == data@,
            final(self).header@ == header_of(data@),
            final(self).size == old(self).size,
    {
        broadcast use vstd::string::to_string_from_display_ensures_for_str;

        self.filename = filename.to_string();
        self.data = data;
        self.get_header();
    }

    /// Reads the header fields from the image.
    pub fn get_header(&mut self)
        requires
            old(self).data@.len() >= HEADER_END,
        ensures
            final(self).header@ == header_of(old(self).data@),
            final(self).data == old(self).data,
            final(self).filename == old(self).filename,
            final(self).size == old(self).size,
    {
        copy_bytes(&mut self.header.logo, &self.data, 0x104);
        copy_bytes(&mut self.header.title, &self.data, 0x134);
        copy_bytes(&mut self.header.manufacturer_code, &self.data, 0x13F);
        self.header.cgb_flag = self.data[0x143];
        self.header.sgb_flag = self.data[0x146];
        self.header.cartridge_type = self.data[0x147];
        self.header.rom_size = self.data[0x148];
        self.header.ram_size = self.data[0x149];
        self.header.mask_rom_version = self.data[0x14C];
        self.header.header_checksum = self.data[0x14D];
        proof {
            lemma_join(self.data[0x14E], self.data[0x14F]);
        }
        self.header.global_checksum = (self.data[0x14E] as u16) << 8 | self.data[0x14F] as u16;
    }
}

impl CartridgeHeader {
    /// The header of no cartridge: every field zero.
    pub open spec fn blank() -> HeaderState {
        HeaderState {
            logo: Seq::new(48, |i: int| 0u8),
            title: Seq::new(11, |i: int| 0u8),
            manufacturer_code: Seq::new(4, |i: int| 0u8),
            cgb_flag: 0,
            sgb_flag: 0,
            cartridge_type: 0,
            rom_size: 0,
            ram_size: 0,
            mask_rom_version: 0,
            header_checksum: 0,
            global_checksum: 0,
        }
    }

    /// A header with every field zero.
    pub fn init_header() -> (header: CartridgeHeader)
        ensures
            header@ == CartridgeHeader::blank(),
    {
        let header = CartridgeHeader {
            logo: [0;48],
            title: [0;11],
            manufacturer_code: [0;4],
            cgb_flag: 0,
            sgb_flag: 0,
            cartridge_type: 0,
            rom_size: 0,
            ram_size: 0,
            mask_rom_version: 0,
            header_checksum: 0,
            global_checksum: 0,
        };
        assert(header.logo@ =~= Seq::new(48, |i: int| 0u8));
        assert(header.title@ =~= Seq::new(11, |i: int| 0u8));
        assert(header.manufacturer_code@ =~= Seq::new(4, |i: int| 0u8));
        header
    }

    /// Computes the checksum of the header bytes of `data` and holds it
    /// against the stored one: `Ok` when they agree, else the computed value.
    pub fn check_header_checksum(&self, data: &Vec<u8>) -> (result: Result<(), u8>)
        requires
            data@.len() >= 0x14D,
        ensures
            result == if header_checksum_of(data@) == self.header_checksum {
                Ok::<(), u8>(())
            } else {
                Err::<(), u8>(header_checksum_of(data@))
            },
    {
        let mut x: u8 = 0;
        let mut i: usize = 0x134;
        assert(data@.subrange(0x134, 0x134) =~= Seq::<u8>::empty());
        while i < 0x14D
            invariant
                0x134 <= i <= 0x14D,
                data@.len() >= 0x14D,
                x == complement_sum(data@.subrange(0x134, i as int)) % 256,
            decreases 0x14D - i,
        {
            assert(data@.subrange(0x134, i + 1).drop_last() =~= data@.subrange(0x134, i as int));
            x = x.wrapping_sub(data[i]).wrapping_sub(1);
            i += 1;
        }
        if x == self.header_checksum {
            Ok(())
        } else {
            Err(x)
        }
    }

    /// Whether the header carries the official logo.
    pub fn has_official_logo(&self) -> (official: bool)
        ensures
            official == (self.logo@ == NINTENDO_LOGO@),
    {
        let mut i: usize = 0;
        while i < 48
            invariant
                i <= 48,
                forall|j: int| 0 <= j < i ==> self.logo@[j] == NINTENDO_LOGO@[j],
            decreases 48 - i,
        {
            if self.logo[i] != NINTENDO_LOGO[i] {
                return false;
            }
            i += 1;
        }
        assert(self.logo@ =~= NINTENDO_LOGO@);
        true
    }

    /// The name of the cartridge type, `None` for a code the table does not hold.
    pub fn cartridge_type_name(&self) -> (name: Option<&'static str>)
        ensures
            name == if self.cartridge_type < 35 {
                Some(CART_TYPE@[self.cartridge_type as int])
            } else {
                None
            },
    {
        if self.cartridge_type < 35 {
            Some(CART_TYPE[self.cartridge_type as usize])
        } else {
            None
        }
    }

    /// The ROM size in KiB, `32 << rom_size` in 32 bits, where bits shifted
    /// out at the top are lost; `None` for a size code beyond
    /// `MAX_ROM_SIZE_CODE`.
    pub fn rom_size_kib(&self) -> (kib: Option<u32>)
        ensures
            kib == if self.rom_size <= MAX_ROM_SIZE_CODE {
                Some(32u32 << self.rom_size)
            } else {
                None
            },
    {
        if self.rom_size <= MAX_ROM_SIZE_CODE {
            Some(32u32 << self.rom_size)
        } else {
            None
        }
    }

    /// The name of the RAM size.
    pub fn ram_size_name(&self) -> (name: &'static str)
        ensures
            name@ == ram_size_name_of(self.ram_size),
    {
        match self.ram_size {
            0 => "None",
            1 => "Unused",
            2 => "8KB",
            3 => "32KB",
            4 => "128KB",
            5 => "64KB",
            _ => "Unknown",
        }
    }
}

} // verus!

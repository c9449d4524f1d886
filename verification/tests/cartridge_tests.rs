use rusticboy::cartridge::{Cartridge, CartridgeHeader, CART_TYPE, NINTENDO_LOGO};

fn image() -> Vec<u8> {
    let mut data = vec![0u8; 0x8000];
    data[0x104..0x134].copy_from_slice(&NINTENDO_LOGO);
    data[0x134..0x13F].copy_from_slice(b"TESTCART\0\0\0");
    data[0x13F..0x143].copy_from_slice(b"ABCD");
    data[0x143] = 0x80;
    data[0x146] = 0x03;
    data[0x147] = 0x13;
    data[0x148] = 0x02;
    data[0x149] = 0x03;
    data[0x14C] = 0x01;
    data[0x14E] = 0x12;
    data[0x14F] = 0x34;
    data[0x14D] = checksum(&data);
    data
}

fn checksum(data: &[u8]) -> u8 {
    let mut sum: i64 = 0;
    for byte in &data[0x134..0x14D] {
        sum += -(*byte as i64) - 1;
    }
    sum.rem_euclid(256) as u8
}

#[test]
fn blank_cartridge() {
    let cart = Cartridge::init_cartridge();
    assert_eq!(cart.filename, "");
    assert_eq!(cart.size, 0);
    assert!(cart.data.is_empty());
    assert_eq!(cart.header.logo, [0u8; 48]);
    assert_eq!(cart.header.title, [0u8; 11]);
    assert_eq!(cart.header.manufacturer_code, [0u8; 4]);
    assert_eq!(cart.header.cartridge_type, 0);
    assert_eq!(cart.header.global_checksum, 0);
}

#[test]
fn blank_header() {
    let header = CartridgeHeader::init_header();
    assert_eq!(header.logo, [0u8; 48]);
    assert_eq!(header.title, [0u8; 11]);
    assert_eq!(header.manufacturer_code, [0u8; 4]);
    assert_eq!(
        (header.cgb_flag, header.sgb_flag, header.cartridge_type, header.rom_size, header.ram_size),
        (0, 0, 0, 0, 0)
    );
    assert_eq!((header.mask_rom_version, header.header_checksum, header.global_checksum), (0, 0, 0));
    assert!(!header.has_official_logo());
}

#[test]
fn header_fields_come_from_their_offsets() {
    let mut cart = Cartridge::init_cartridge();
    let data = image();
    cart.load_cartridge("game.gb", data.clone());
    assert_eq!(cart.filename, "game.gb");
    assert_eq!(cart.data, data);
    assert_eq!(cart.header.logo, NINTENDO_LOGO);
    assert_eq!(&cart.header.title, b"TESTCART\0\0\0");
    assert_eq!(&cart.header.manufacturer_code, b"ABCD");
    assert_eq!(cart.header.cgb_flag, 0x80);
    assert_eq!(cart.header.sgb_flag, 0x03);
    assert_eq!(cart.header.cartridge_type, 0x13);
    assert_eq!(cart.header.rom_size, 0x02);
    assert_eq!(cart.header.ram_size, 0x03);
    assert_eq!(cart.header.mask_rom_version, 0x01);
    assert_eq!(cart.header.header_checksum, data[0x14D]);
    assert_eq!(cart.header.global_checksum, 0x1234);
    assert_eq!(cart.size, 0);
}

#[test]
fn header_of_the_shortest_image() {
    let mut cart = Cartridge::init_cartridge();
    let mut data = vec![0u8; 0x150];
    data[0x14F] = 0x99;
    data[0x104] = 0x11;
    cart.data = data;
    cart.get_header();
    assert_eq!(cart.header.global_checksum, 0x0099);
    assert_eq!(cart.header.logo[0], 0x11);
}

#[test]
fn header_checksum_of_zero_bytes_is_e7() {
    // 25 bytes of zero: 25 * (-0 - 1) = -25, and -25 mod 256 = 231
    let mut header = CartridgeHeader::init_header();
    let data = vec![0u8; 0x150];
    assert_eq!(header.check_header_checksum(&data), Err(0xE7));
    header.header_checksum = 0xE7;
    assert_eq!(header.check_header_checksum(&data), Ok(()));
}

#[test]
fn header_checksum_matches_and_mismatches() {
    let mut cart = Cartridge::init_cartridge();
    let data = image();
    let expected = checksum(&data);
    cart.load_cartridge("game.gb", data.clone());
    assert_eq!(cart.header.check_header_checksum(&data), Ok(()));
    cart.header.header_checksum = expected.wrapping_add(1);
    assert_eq!(cart.header.check_header_checksum(&data), Err(expected));
    // the bytes outside 0x134..0x14D do not count
    let mut other = data.clone();
    other[0x133] ^= 0xFF;
    other[0x14D] ^= 0xFF;
    other[0x14E] ^= 0xFF;
    assert_eq!(cart.header.check_header_checksum(&other), Err(expected));
    // each byte inside counts
    other[0x134] = other[0x134].wrapping_add(1);
    assert_eq!(cart.header.check_header_checksum(&other), Err(expected.wrapping_sub(1)));
    other[0x14C] = other[0x14C].wrapping_add(2);
    assert_eq!(cart.header.check_header_checksum(&other), Err(expected.wrapping_sub(3)));
}

#[test]
fn header_checksum_of_a_known_header() {
    // title "A" followed by zeros: -(0x41) - 25 = -90, and -90 mod 256 = 166
    let header = CartridgeHeader::init_header();
    let mut data = vec![0u8; 0x14D];
    data[0x134] = 0x41;
    assert_eq!(header.check_header_checksum(&data), Err(166));
}

#[test]
fn official_logo_is_recognised() {
    let mut header = CartridgeHeader::init_header();
    header.logo = NINTENDO_LOGO;
    assert!(header.has_official_logo());
    header.logo[47] ^= 1;
    assert!(!header.has_official_logo());
    header.logo = NINTENDO_LOGO;
    header.logo[0] ^= 0x80;
    assert!(!header.has_official_logo());
    assert_eq!(NINTENDO_LOGO[0], 0xCE);
    assert_eq!(NINTENDO_LOGO[47], 0x3E);
}

#[test]
fn cartridge_type_names() {
    let mut header = CartridgeHeader::init_header();
    assert_eq!(header.cartridge_type_name(), Some("ROM ONLY"));
    header.cartridge_type = 0x01;
    assert_eq!(header.cartridge_type_name(), Some("MBC1"));
    header.cartridge_type = 0x13;
    assert_eq!(header.cartridge_type_name(), Some("MBC3+RAM+BATTERY 2"));
    header.cartridge_type = 0x19;
    assert_eq!(header.cartridge_type_name(), Some("MBC5"));
    header.cartridge_type = 0x22;
    assert_eq!(header.cartridge_type_name(), Some("MBC7+SENSOR+RUMBLE+RAM+BATTERY"));
    header.cartridge_type = 0x23;
    assert_eq!(header.cartridge_type_name(), None);
    header.cartridge_type = 0xFF;
    assert_eq!(header.cartridge_type_name(), None);
    assert_eq!(CART_TYPE.len(), 35);
}

#[test]
fn rom_size_in_kib() {
    let mut header = CartridgeHeader::init_header();
    assert_eq!(header.rom_size_kib(), Some(32));
    header.rom_size = 1;
    assert_eq!(header.rom_size_kib(), Some(64));
    header.rom_size = 8;
    assert_eq!(header.rom_size_kib(), Some(8192));
    header.rom_size = 26;
    assert_eq!(header.rom_size_kib(), Some(0x8000_0000));
    header.rom_size = 27;
    assert_eq!(header.rom_size_kib(), Some(0));
    header.rom_size = 31;
    assert_eq!(header.rom_size_kib(), Some(0));
    header.rom_size = 32;
    assert_eq!(header.rom_size_kib(), None);
    header.rom_size = 0xFF;
    assert_eq!(header.rom_size_kib(), None);
}

#[test]
fn ram_size_names() {
    let mut header = CartridgeHeader::init_header();
    let names = ["None", "Unused", "8KB", "32KB", "128KB", "64KB", "Unknown", "Unknown"];
    for (code, name) in names.iter().enumerate() {
        header.ram_size = code as u8;
        assert_eq!(header.ram_size_name(), *name);
    }
    header.ram_size = 0xFF;
    assert_eq!(header.ram_size_name(), "Unknown");
}

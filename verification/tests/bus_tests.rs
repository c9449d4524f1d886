use rusticboy::bus::MemoryBus;

fn mapped(address: u16) -> bool {
    address < 0xE000 || (0xFE00..0xFEA0).contains(&address) || address >= 0xFF00
}

#[test]
fn new_bus_reads_zero_everywhere() {
    let bus = MemoryBus::init_bus();
    for address in 0..=0xFFFFu16 {
        assert_eq!(bus.read_byte(address), 0);
    }
}

#[test]
fn vram_byte_written_is_read_back() {
    let mut bus = MemoryBus::init_bus();
    for address in 0x8000..=0x9FFFu16 {
        let value = (address as u8) ^ 0x5A;
        bus.write_byte(address, value);
        assert_eq!(bus.read_byte(address), value);
    }
    // the earlier cells kept what was written to them
    assert_eq!(bus.read_byte(0x8000), 0x5A);
    assert_eq!(bus.read_byte(0x9FFE), 0xFE ^ 0x5A);
    assert_eq!(bus.read_byte(0x9FFF), 0xFF ^ 0x5A);
}

#[test]
fn every_mapped_address_keeps_its_byte() {
    let mut bus = MemoryBus::init_bus();
    for address in 0..=0xFFFFu16 {
        bus.write_byte(address, (address % 251) as u8 + 1);
    }
    for address in 0..=0xFFFFu16 {
        let expected = if mapped(address) { (address % 251) as u8 + 1 } else { 0 };
        assert_eq!(bus.read_byte(address), expected, "address {:#06x}", address);
    }
}

#[test]
fn unmapped_addresses_read_zero_after_writes() {
    let mut bus = MemoryBus::init_bus();
    for address in [0xE000u16, 0xE001, 0xF000, 0xFDFF, 0xFEA0, 0xFEB0, 0xFEFF] {
        bus.write_byte(address, 0xAB);
        assert_eq!(bus.read_byte(address), 0);
    }
    // the neighbours of the gaps are backed
    for address in [0xDFFFu16, 0xFE00, 0xFE9F, 0xFF00] {
        bus.write_byte(address, 0xAB);
        assert_eq!(bus.read_byte(address), 0xAB);
    }
}

#[test]
fn regions_are_backed_by_their_own_storage() {
    let mut bus = MemoryBus::init_bus();
    bus.write_byte(0x0000, 1);
    bus.write_byte(0x3FFF, 2);
    bus.write_byte(0x4000, 3);
    bus.write_byte(0x7FFF, 4);
    bus.write_byte(0x8000, 5);
    bus.write_byte(0xA000, 6);
    bus.write_byte(0xBFFF, 7);
    bus.write_byte(0xC000, 8);
    bus.write_byte(0xDFFF, 9);
    bus.write_byte(0xFE00, 10);
    bus.write_byte(0xFE9F, 11);
    bus.write_byte(0xFF00, 12);
    bus.write_byte(0xFF7F, 13);
    bus.write_byte(0xFF80, 14);
    bus.write_byte(0xFFFE, 15);
    bus.write_byte(0xFFFF, 16);
    assert_eq!(bus.rom_bank_0[0], 1);
    assert_eq!(bus.rom_bank_0[0x3FFF], 2);
    assert_eq!(bus.rom_bank_n[0], 3);
    assert_eq!(bus.rom_bank_n[0x3FFF], 4);
    assert_eq!(bus.vram[0], 5);
    assert_eq!(bus.ext_ram[0], 6);
    assert_eq!(bus.ext_ram[0x1FFF], 7);
    assert_eq!(bus.work_ram[0], 8);
    assert_eq!(bus.work_ram[0x1FFF], 9);
    assert_eq!(bus.sprite_attrib_ram[0], 10);
    assert_eq!(bus.sprite_attrib_ram[0x9F], 11);
    assert_eq!(bus.io_registers[0], 12);
    assert_eq!(bus.io_registers[0x7F], 13);
    assert_eq!(bus.high_ram[0], 14);
    assert_eq!(bus.high_ram[0x7E], 15);
    assert_eq!(bus.interrupt_enable, 16);
}

#[test]
fn short_is_stored_low_byte_first() {
    let mut bus = MemoryBus::init_bus();
    bus.write_short(0xC000, 0x1234);
    assert_eq!(bus.read_byte(0xC000), 0x34);
    assert_eq!(bus.read_byte(0xC001), 0x12);
    assert_eq!(bus.read_short(0xC000), 0x1234);
}

#[test]
fn short_is_read_low_byte_first() {
    let mut bus = MemoryBus::init_bus();
    bus.write_byte(0x8000, 0xCD);
    bus.write_byte(0x8001, 0xAB);
    assert_eq!(bus.read_short(0x8000), 0xABCD);
}

#[test]
fn short_round_trip_on_mapped_cells() {
    let mut bus = MemoryBus::init_bus();
    let values = [0x0000u16, 0x0001, 0x00FF, 0x0100, 0x1234, 0x8000, 0xFF00, 0xFFFF];
    for address in [0x0000u16, 0x3FFF, 0x7FFF, 0x9FFF, 0xC123, 0xDFFE, 0xFE00, 0xFE9E, 0xFF7F, 0xFFFE] {
        for value in values {
            bus.write_short(address, value);
            assert_eq!(bus.read_short(address), value, "address {:#06x}", address);
        }
    }
}

#[test]
fn short_wraps_around_the_top_of_the_address_space() {
    let mut bus = MemoryBus::init_bus();
    bus.write_short(0xFFFF, 0xBEEF);
    assert_eq!(bus.read_byte(0xFFFF), 0xEF);
    assert_eq!(bus.read_byte(0x0000), 0xBE);
    assert_eq!(bus.read_short(0xFFFF), 0xBEEF);
}

#[test]
fn short_loses_the_byte_that_falls_on_an_unmapped_cell() {
    let mut bus = MemoryBus::init_bus();
    bus.write_short(0xDFFF, 0x1234);
    assert_eq!(bus.read_short(0xDFFF), 0x0034);
    bus.write_short(0xFDFF, 0x1234);
    assert_eq!(bus.read_short(0xFDFF), 0x1200);
    bus.write_short(0xE000, 0x1234);
    assert_eq!(bus.read_short(0xE000), 0x0000);
}

#[test]
fn boot_image_fills_the_first_page() {
    let mut bus = MemoryBus::init_bus();
    bus.write_byte(0x0100, 0x77);
    let image: Vec<u8> = (0..256u32).map(|i| (i as u8).wrapping_add(1)).collect();
    bus.load_boot_rom(&image);
    for address in 0..0x100u16 {
        assert_eq!(bus.read_byte(address), (address as u8).wrapping_add(1));
    }
    assert_eq!(bus.read_byte(0x0100), 0x77);
}

#[test]
fn boot_image_longer_than_the_window_is_cut() {
    let mut bus = MemoryBus::init_bus();
    let image = vec![0xEEu8; 0x200];
    bus.load_boot_rom(&image);
    assert_eq!(bus.read_byte(0x00FF), 0xEE);
    assert_eq!(bus.read_byte(0x0100), 0x00);
    assert_eq!(bus.read_byte(0x01FF), 0x00);
}

#[test]
fn boot_image_shorter_than_the_window_leaves_the_rest() {
    let mut bus = MemoryBus::init_bus();
    bus.write_byte(0x0003, 0x99);
    bus.load_boot_rom(&vec![1, 2, 3]);
    assert_eq!(bus.read_byte(0x0000), 1);
    assert_eq!(bus.read_byte(0x0001), 2);
    assert_eq!(bus.read_byte(0x0002), 3);
    assert_eq!(bus.read_byte(0x0003), 0x99);
    bus.load_boot_rom(&Vec::new());
    assert_eq!(bus.read_byte(0x0000), 1);
}

#[test]
fn load_bytes_stores_a_prefix_at_the_origin() {
    let mut bus = MemoryBus::init_bus();
    let data = vec![10u8, 20, 30, 40, 50];
    bus.load_bytes(0xC000, &data, 3);
    assert_eq!(bus.read_byte(0xC000), 10);
    assert_eq!(bus.read_byte(0xC001), 20);
    assert_eq!(bus.read_byte(0xC002), 30);
    assert_eq!(bus.read_byte(0xC003), 0);
    bus.load_bytes(0xFFFE, &data, 2);
    assert_eq!(bus.read_byte(0xFFFE), 10);
    assert_eq!(bus.read_byte(0xFFFF), 20);
}

#[test]
fn load_bytes_skips_unmapped_cells() {
    let mut bus = MemoryBus::init_bus();
    let data = vec![1u8, 2, 3, 4];
    bus.load_bytes(0xDFFE, &data, 4);
    assert_eq!(bus.read_byte(0xDFFE), 1);
    assert_eq!(bus.read_byte(0xDFFF), 2);
    assert_eq!(bus.read_byte(0xE000), 0);
    assert_eq!(bus.read_byte(0xE001), 0);
}

fn regions(bus: &MemoryBus) -> Vec<Vec<u8>> {
    vec![
        bus.rom_bank_0.to_vec(),
        bus.rom_bank_n.to_vec(),
        bus.vram.to_vec(),
        bus.ext_ram.to_vec(),
        bus.work_ram.to_vec(),
        bus.sprite_attrib_ram.to_vec(),
        bus.io_registers.to_vec(),
        bus.high_ram.to_vec(),
        vec![bus.interrupt_enable],
    ]
}

#[test]
fn new_bus_has_every_cell_zero() {
    let bus = MemoryBus::init_bus();
    for region in regions(&bus) {
        assert!(region.iter().all(|byte| *byte == 0));
    }
    assert_eq!(bus.high_ram, [0u8; 0x80]);
    assert_eq!(bus.high_ram[0x7F], 0);
}

#[test]
fn store_to_an_unmapped_address_leaves_every_region() {
    let mut bus = MemoryBus::init_bus();
    for address in 0..=0xFFFFu16 {
        bus.write_byte(address, (address % 199) as u8 + 1);
    }
    bus.high_ram[0x7F] = 0x5C;
    let before = regions(&bus);
    for address in (0xE000..=0xFDFFu16).chain(0xFEA0..=0xFEFFu16) {
        bus.write_byte(address, 0xAB);
    }
    // a word whose two cells are both unmapped
    for address in (0xE000..=0xFDFEu16).chain(0xFEA0..=0xFEFEu16) {
        bus.write_short(address, 0xCDEF);
    }
    assert_eq!(regions(&bus), before);
    assert_eq!(bus.high_ram[0x7F], 0x5C);
}

#[test]
fn store_at_the_top_reaches_the_interrupt_enable_register_only() {
    let mut bus = MemoryBus::init_bus();
    bus.write_byte(0xFFFF, 0xAB);
    assert_eq!(bus.interrupt_enable, 0xAB);
    assert_eq!(bus.read_byte(0xFFFF), 0xAB);
    assert_eq!(bus.read_byte(0xFFFE), 0x00);
    assert_eq!(bus.high_ram, [0u8; 0x80]);
}

#[test]
fn no_store_reaches_the_last_cell_of_high_ram() {
    let mut bus = MemoryBus::init_bus();
    for address in 0..=0xFFFFu16 {
        bus.write_byte(address, 0xFF);
        bus.write_short(address, 0xFFFF);
    }
    assert_eq!(bus.high_ram[0x7E], 0xFF);
    assert_eq!(bus.high_ram[0x7F], 0x00);
    bus.load_bytes(0xFF00, &vec![0x11u8; 0x100], 0x100);
    assert_eq!(bus.high_ram[0x7E], 0x11);
    assert_eq!(bus.interrupt_enable, 0x11);
    assert_eq!(bus.high_ram[0x7F], 0x00);
    bus.high_ram[0x7F] = 0x77;
    bus.load_boot_rom(&vec![0x22u8; 0x100]);
    bus.write_byte(0xFFFE, 0x33);
    assert_eq!(bus.high_ram[0x7F], 0x77);
    assert_eq!(bus.read_byte(0xFFFE), 0x33);
}

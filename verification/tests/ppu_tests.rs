use rusticboy::ppu::{Mode, Timing, PPU};

fn state(ppu: &PPU) -> (Mode, u32, u8) {
    (ppu.mode(), ppu.mode_cycle(), ppu.ly())
}

#[test]
fn ppu_starts_in_oam_scan_of_line_zero() {
    let ppu = PPU::init_ppu();
    assert_eq!(state(&ppu), (Mode::OamScan, 0, 0));
    assert_eq!(ppu.timing(), Timing { mode: Mode::OamScan, mode_cycle: 0, ly: 0 });
    assert_eq!(ppu.lyc(), 0);
    assert_eq!(ppu.stat(), 0);
    assert_eq!(ppu.framebuffer().len(), 160 * 144 * 4);
    assert!(ppu.framebuffer().iter().all(|byte| *byte == 0));
}

#[test]
fn modes_have_their_numbers_and_durations() {
    assert_eq!(Mode::HBlank.number(), 0);
    assert_eq!(Mode::VBlank.number(), 1);
    assert_eq!(Mode::OamScan.number(), 2);
    assert_eq!(Mode::Draw.number(), 3);
    assert_eq!(Mode::OamScan.duration(), 80);
    assert_eq!(Mode::Draw.duration(), 172);
    assert_eq!(Mode::HBlank.duration(), 204);
    assert_eq!(Mode::VBlank.duration(), 456);
}

#[test]
fn one_line_goes_through_scan_draw_and_blank() {
    let mut ppu = PPU::init_ppu();
    ppu.step(80);
    assert_eq!(state(&ppu), (Mode::Draw, 0, 0));
    ppu.step(172);
    assert_eq!(state(&ppu), (Mode::HBlank, 0, 0));
    ppu.step(204);
    assert_eq!(state(&ppu), (Mode::OamScan, 0, 1));
}

#[test]
fn after_144_lines_the_vertical_blank_begins() {
    let mut ppu = PPU::init_ppu();
    for line in 0..144u8 {
        assert_eq!(state(&ppu), (Mode::OamScan, 0, line));
        ppu.step(80);
        ppu.step(172);
        ppu.step(204);
    }
    assert_eq!(state(&ppu), (Mode::VBlank, 0, 144));
}

#[test]
fn vertical_blank_lasts_ten_lines() {
    let mut ppu = PPU::init_ppu();
    for _ in 0..144 {
        ppu.step(80);
        ppu.step(172);
        ppu.step(204);
    }
    for line in 144..153u8 {
        assert_eq!(state(&ppu), (Mode::VBlank, 0, line));
        ppu.step(456);
    }
    assert_eq!(state(&ppu), (Mode::VBlank, 0, 153));
    ppu.step(456);
    assert_eq!(state(&ppu), (Mode::OamScan, 0, 0));
}

#[test]
fn cycles_accumulate_until_the_duration_is_reached() {
    let mut ppu = PPU::init_ppu();
    ppu.step(40);
    assert_eq!(state(&ppu), (Mode::OamScan, 40, 0));
    ppu.step(39);
    assert_eq!(state(&ppu), (Mode::OamScan, 79, 0));
    ppu.step(1);
    assert_eq!(state(&ppu), (Mode::Draw, 0, 0));
    ppu.step(0);
    assert_eq!(state(&ppu), (Mode::Draw, 0, 0));
    ppu.step(171);
    assert_eq!(state(&ppu), (Mode::Draw, 171, 0));
}

#[test]
fn cycles_beyond_the_duration_are_dropped() {
    let mut ppu = PPU::init_ppu();
    ppu.step(100);
    assert_eq!(state(&ppu), (Mode::Draw, 0, 0));
    ppu.step(10_000);
    assert_eq!(state(&ppu), (Mode::HBlank, 0, 0));
    ppu.step(u32::MAX);
    assert_eq!(state(&ppu), (Mode::OamScan, 0, 1));
    ppu.step(79);
    ppu.step(u32::MAX);
    assert_eq!(state(&ppu), (Mode::Draw, 0, 1));
}

#[test]
fn at_most_one_transition_per_step() {
    let mut ppu = PPU::init_ppu();
    ppu.step(80 + 172 + 204);
    assert_eq!(state(&ppu), (Mode::Draw, 0, 0));
}

#[test]
fn a_frame_in_four_cycle_steps() {
    let mut ppu = PPU::init_ppu();
    // 80, 172, 204 and 456 are multiples of 4, so nothing is dropped
    let mut steps = 0u32;
    loop {
        ppu.step(4);
        steps += 1;
        assert!(ppu.ly() <= 153);
        assert!(ppu.mode_cycle() < ppu.mode().duration());
        assert_eq!(ppu.mode() == Mode::VBlank, ppu.ly() >= 144);
        if state(&ppu) == (Mode::OamScan, 0, 0) {
            break;
        }
    }
    assert_eq!(steps * 4, 70224);
    assert!(ppu.framebuffer().iter().all(|byte| *byte == 0));
}

#[test]
fn timing_advances_without_a_ppu() {
    let t = Timing { mode: Mode::HBlank, mode_cycle: 200, ly: 142 };
    assert_eq!(t.advance(3), Timing { mode: Mode::HBlank, mode_cycle: 203, ly: 142 });
    assert_eq!(t.advance(4), Timing { mode: Mode::OamScan, mode_cycle: 0, ly: 143 });
    let t = Timing { mode: Mode::HBlank, mode_cycle: 0, ly: 143 };
    assert_eq!(t.advance(204), Timing { mode: Mode::VBlank, mode_cycle: 0, ly: 144 });
    let t = Timing { mode: Mode::VBlank, mode_cycle: 455, ly: 153 };
    assert_eq!(t.advance(1), Timing { mode: Mode::OamScan, mode_cycle: 0, ly: 0 });
    let t = Timing { mode: Mode::Draw, mode_cycle: 0, ly: 7 };
    assert_eq!(t.advance(171), Timing { mode: Mode::Draw, mode_cycle: 171, ly: 7 });
    assert_eq!(t.advance(172), Timing { mode: Mode::HBlank, mode_cycle: 0, ly: 7 });
}

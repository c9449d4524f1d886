//! The scanline timing of the video unit: a cyclic state machine driven by
//! the cycle counts of the CPU.

use vstd::prelude::*;

verus! {

/// Length of the OAM scan of a line, in clock cycles.
pub const OAM_SCAN_CYCLES: u32 = 80;

/// Length of the pixel transfer of a line, in clock cycles.
pub const DRAW_CYCLES: u32 = 172;

/// Length of the horizontal blank of a line, in clock cycles.
pub const HBLANK_CYCLES: u32 = 204;

/// Length of one line of the vertical blank, in clock cycles.
pub const VBLANK_LINE_CYCLES: u32 = 456;

/// Number of lines that are drawn.
pub const VISIBLE_LINES: u8 = 144;

/// The last line of the vertical blank.
pub const LAST_LINE: u8 = 153;

/// Width of the display in pixels.
pub const SCREEN_WIDTH: usize = 160;

/// Bytes per pixel.
pub const PIXEL_BYTES: usize = 4;

/// Bytes in one line of pixels.
pub const LINE_BYTES: usize = 640;

/// Bytes in a frame.
pub const FRAME_BYTES: usize = 92160;

#[derive(Clone, Copy, PartialEq, Eq, Structural, Debug)]
pub enum Mode {
    /// Mode 0.
    HBlank,
    /// Mode 1.
    VBlank,
    /// Mode 2.
    OamScan,
    /// Mode 3.
    Draw,
}

impl Mode {
    /// The number by which the hardware knows the mode.
    pub open spec fn number_spec(self) -> u8 {
        match self {
            Mode::HBlank => 0,
            Mode::VBlank => 1,
            Mode::OamScan => 2,
            Mode::Draw => 3,
        }
    }

    /// How many cycles the mode lasts before the next transition.
    pub open spec fn duration_spec(self) -> u32 {
        match self {
            Mode::HBlank => HBLANK_CYCLES,
            Mode::VBlank => VBLANK_LINE_CYCLES,
            Mode::OamScan => OAM_SCAN_CYCLES,
            Mode::Draw => DRAW_CYCLES,
        }
    }

    #[verifier::when_used_as_spec(number_spec)]
    pub fn number(self) -> (n: u8)
        ensures
            n == self.number_spec(),
    {
        match self {
            Mode::HBlank => 0,
            Mode::VBlank => 1,
            Mode::OamScan => 2,
            Mode::Draw => 3,
        }
    }

    #[verifier::when_used_as_spec(duration_spec)]
    pub fn duration(self) -> (cycles: u32)
        ensures
            cycles == self.duration_spec(),
    {
        match self {
            Mode::HBlank => HBLANK_CYCLES,
            Mode::VBlank => VBLANK_LINE_CYCLES,
            Mode::OamScan => OAM_SCAN_CYCLES,
            Mode::Draw => DRAW_CYCLES,
        }
    }
}

/// Where the video unit stands within a frame.
#[derive(Clone, Copy, PartialEq, Eq, Structural, Debug)]
pub struct Timing {
    pub mode: Mode,
    /// Cycles spent in the current mode.
    pub mode_cycle: u32,
    /// The current line.
    pub ly: u8,
}

impl Timing {
    /// The cycle count stays below the duration of the mode, the line stays
    /// within the frame, and the vertical blank is exactly the lines from 144 on.
    pub open spec fn wf(self) -> bool {
        &&& self.mode_cycle < self.mode.duration()
        &&& self.ly <= LAST_LINE
        &&& (self.mode == Mode::VBlank) == (self.ly >= VISIBLE_LINES)
    }

    /// The start of a frame: OAM scan of line 0.
    pub open spec fn start() -> Timing {
        Timing { mode: Mode::OamScan, mode_cycle: 0, ly: 0 }
    }

    /// The state that follows when the current mode has run its duration.
    pub open spec fn next_mode(self) -> Timing {
        match self.mode {
            Mode::OamScan => Timing { mode: Mode::Draw, mode_cycle: 0, ly: self.ly },
            Mode::Draw => Timing { mode: Mode::HBlank, mode_cycle: 0, ly: self.ly },
            Mode::HBlank => if self.ly + 1 == VISIBLE_LINES {
                Timing { mode: Mode::VBlank, mode_cycle: 0, ly: VISIBLE_LINES }
            } else {
                Timing { mode: Mode::OamScan, mode_cycle: 0, ly: (self.ly + 1) as u8 }
            },
            Mode::VBlank => if self.ly >= LAST_LINE {
                Timing { mode: Mode::OamScan, mode_cycle: 0, ly: 0 }
            } else {
                Timing { mode: Mode::VBlank, mode_cycle: 0, ly: (self.ly + 1) as u8 }
            },
        }
    }

    /// Whether `cycles` more cycles complete the current mode.
    pub open spec fn completes(self, cycles: u32) -> bool {
        self.mode_cycle + cycles >= self.mode.duration()
    }

    /// The state after `cycles` more cycles: they are added to the cycle
    /// count, and if that completes the current mode, the next mode begins
    /// with a count of zero. At most one transition is made, and cycles beyond
    /// the duration are dropped.
    pub open spec fn advance_spec(self, cycles: u32) -> Timing {
        if self.completes(cycles) {
            self.next_mode()
        } else {
            Timing { mode_cycle: (self.mode_cycle + cycles) as u32, ..self }
        }
    }

    /// Whether `cycles` more cycles end the pixel transfer of a line, which is
    /// when the line is committed to the frame.
    pub open spec fn commits_line(self, cycles: u32) -> bool {
        self.mode == Mode::Draw && self.completes(cycles)
    }

    /// One whole visible line from the start of its OAM scan, each mode
    /// driven with exactly its duration.
    pub open spec fn run_line(self) -> Timing {
        self.advance_spec(OAM_SCAN_CYCLES).advance_spec(DRAW_CYCLES).advance_spec(HBLANK_CYCLES)
    }

    /// `lines` whole lines in a row.
    pub open spec fn run_lines(self, lines: nat) -> Timing
        decreases lines,
    {
        if lines == 0 {
            self
        } else {
            self.run_lines((lines - 1) as nat).run_line()
        }
    }

    #[verifier::when_used_as_spec(advance_spec)]
    pub fn advance(self, cycles: u32) -> (next: Timing)
        requires
            self.wf(),
        ensures
            next == self.advance_spec(cycles),
            next.wf(),
    {
        let total: u64 = self.mode_cycle as u64 + cycles as u64;
        if total < self.mode.duration() as u64 {
            return Timing { mode: self.mode, mode_cycle: total as u32, ly: self.ly };
        }
        match self.mode {
            Mode::OamScan => Timing { mode: Mode::Draw, mode_cycle: 0, ly: self.ly },
            Mode::Draw => Timing { mode: Mode::HBlank, mode_cycle: 0, ly: self.ly },
            Mode::HBlank => {
                let ly = self.ly + 1;
                if ly == VISIBLE_LINES {
                    Timing { mode: Mode::VBlank, mode_cycle: 0, ly }
                } else {
                    Timing { mode: Mode::OamScan, mode_cycle: 0, ly }
                }
            },
            Mode::VBlank => {
                let ly = self.ly + 1;
                if ly > LAST_LINE {
                    Timing { mode: Mode::OamScan, mode_cycle: 0, ly: 0 }
                } else {
                    Timing { mode: Mode::VBlank, mode_cycle: 0, ly }
                }
            },
        }
    }

    /// Stepping never leaves the valid states.
    pub proof fn lemma_advance_wf(self, cycles: u32)
        requires
            self.wf(),
        ensures
            self.advance_spec(cycles).wf(),
    {
    }

    /// Driven with exactly 80, 172 and 204 cycles, a visible line goes from
    /// OAM scan through pixel transfer and horizontal blank to the OAM scan of
    /// the next line, or into the vertical blank after line 143.
    pub proof fn lemma_visible_line(self)
        requires
            self.mode == Mode::OamScan,
            self.mode_cycle == 0,
            self.ly < VISIBLE_LINES,
        ensures
            self.advance_spec(OAM_SCAN_CYCLES) == (Timing {
                mode: Mode::Draw,
                mode_cycle: 0,
                ly: self.ly,
            }),
            self.advance_spec(OAM_SCAN_CYCLES).advance_spec(DRAW_CYCLES) == (Timing {
                mode: Mode::HBlank,
                mode_cycle: 0,
                ly: self.ly,
            }),
            self.ly < VISIBLE_LINES - 1 ==> self.run_line() == (Timing {
                mode: Mode::OamScan,
                mode_cycle: 0,
                ly: (self.ly + 1) as u8,
            }),
            self.ly == VISIBLE_LINES - 1 ==> self.run_line() == (Timing {
                mode: Mode::VBlank,
                mode_cycle: 0,
                ly: VISIBLE_LINES,
            }),
    {
    }

    /// From the start of a frame, `lines` whole lines lead to the OAM scan of
    /// line `lines`, and the 144th to the vertical blank at line 144.
    pub proof fn lemma_visible_lines(lines: nat)
        requires
            lines <= VISIBLE_LINES,
        ensures
            lines < VISIBLE_LINES ==> Timing::start().run_lines(lines) == (Timing {
                mode: Mode::OamScan,
                mode_cycle: 0,
                ly: lines as u8,
            }),
            lines == VISIBLE_LINES ==> Timing::start().run_lines(lines) == (Timing {
                mode: Mode::VBlank,
                mode_cycle: 0,
                ly: VISIBLE_LINES,
            }),
        decreases lines,
    {
        if lines > 0 {
            Timing::lemma_visible_lines((lines - 1) as nat);
            Timing::start().run_lines((lines - 1) as nat).lemma_visible_line();
        }
    }

    /// In the vertical blank every 456 cycles move to the next line, and the
    /// tick on line 153 starts the next frame at line 0.
    pub proof fn lemma_vblank_line(self)
        requires
            self.mode == Mode::VBlank,
            self.mode_cycle == 0,
            VISIBLE_LINES <= self.ly <= LAST_LINE,
        ensures
            self.ly < LAST_LINE ==> self.advance_spec(VBLANK_LINE_CYCLES) == (Timing {
                mode: Mode::VBlank,
                mode_cycle: 0,
                ly: (self.ly + 1) as u8,
            }),
            self.ly == LAST_LINE ==> self.advance_spec(VBLANK_LINE_CYCLES) == Timing::start(),
    {
    }
}

/// The frame `frame` with line `row` replaced by `line`.
pub open spec fn with_line(frame: Seq<u8>, row: int, line: Seq<u8>) -> Seq<u8> {
    Seq::new(
        frame.len(),
        |i: int|
            if row * LINE_BYTES <= i < (row + 1) * LINE_BYTES {
                line[i - row * LINE_BYTES]
            } else {
                frame[i]
            },
    )
}

pub struct PPU {
    timing: Timing,
    lyc: u8,
    stat: u8,
    framebuffer: [u8; 92160],
    scanline: [u8; 640],
}

impl PPU {
    #[verifier::type_invariant]
    spec fn inv(self) -> bool {
        self.timing.wf()
    }

    /// Mode, cycle count and line.
    pub closed spec fn timing_spec(&self) -> Timing {
        self.timing
    }

    /// The line-compare register.
    pub closed spec fn lyc_spec(&self) -> u8 {
        self.lyc
    }

    /// The status register.
    pub closed spec fn stat_spec(&self) -> u8 {
        self.stat
    }

    /// The frame buffer: 144 lines of 160 pixels of 4 bytes.
    pub closed spec fn frame(&self) -> Seq<u8> {
        self.framebuffer@
    }

    /// The buffer of the line being drawn.
    pub closed spec fn line(&self) -> Seq<u8> {
        self.scanline@
    }

    /// Whether `after` is this PPU stepped by `cycles` cycles: the timing
    /// advanced, the line buffer committed to the frame if that ended the
    /// pixel transfer, everything else as it was.
    pub open spec fn steps_to(&self, after: &PPU, cycles: u32) -> bool {
        &&& after.timing_spec() == self.timing_spec().advance_spec(cycles)
        &&& after.frame() == if self.timing_spec().commits_line(cycles) {
            with_line(self.frame(), self.timing_spec().ly as int, self.line())
        } else {
            self.frame()
        }
        &&& after.line() == self.line()
        &&& after.lyc_spec() == self.lyc_spec()
        &&& after.stat_spec() == self.stat_spec()
    }

    /// A PPU at the start of a frame, with blank buffers.
    pub fn init_ppu() -> (ppu: PPU)
        ensures
            ppu.timing_spec() == Timing::start(),
            ppu.lyc_spec() == 0,
            ppu.stat_spec() == 0,
            ppu.frame() == Seq::new(FRAME_BYTES as nat, |i: int| 0u8),
            ppu.line() == Seq::new(LINE_BYTES as nat, |i: int| 0u8),
    {
        let ppu = PPU {
            timing: Timing { mode: Mode::OamScan, mode_cycle: 0, ly: 0 },
            lyc: 0,
            stat: 0,
            framebuffer: [0; 92160],
            scanline: [0; 640],
        };
        assert(ppu.frame() =~= Seq::new(FRAME_BYTES as nat, |i: int| 0u8));
        assert(ppu.line() =~= Seq::new(LINE_BYTES as nat, |i: int| 0u8));
        ppu
    }

    #[verifier::when_used_as_spec(timing_spec)]
    pub fn timing(&self) -> (timing: Timing)
        ensures
            timing == self.timing_spec(),
            timing.wf(),
    {
        proof {
            use_type_invariant(self);
        }
        self.timing
    }

    /// The current mode.
    pub fn mode(&self) -> (mode: Mode)
        ensures
            mode == self.timing_spec().mode,
    {
        self.timing.mode
    }

    /// Cycles spent in the current mode.
    pub fn mode_cycle(&self) -> (cycles: u32)
        ensures
            cycles == self.timing_spec().mode_cycle,
    {
        self.timing.mode_cycle
    }

    /// The current line.
    pub fn ly(&self) -> (line: u8)
        ensures
            line == self.timing_spec().ly,
            line <= LAST_LINE,
    {
        proof {
            use_type_invariant(self);
        }
        self.timing.ly
    }

    #[verifier::when_used_as_spec(lyc_spec)]
    pub fn lyc(&self) -> (value: u8)
        ensures
            value == self.lyc_spec(),
    {
        self.lyc
    }

    #[verifier::when_used_as_spec(stat_spec)]
    pub fn stat(&self) -> (value: u8)
        ensures
            value == self.stat_spec(),
    {
        self.stat
    }

    /// The frame as it stands: 144 lines of 160 pixels of 4 bytes.
    pub fn framebuffer(&self) -> (buffer: &[u8; 92160])
        ensures
            buffer@ == self.frame(),
    {
        &self.framebuffer
    }

    /// Advances the timing by `cycles` clock cycles. When that ends the pixel
    /// transfer of a line, the line buffer is committed to the frame at the
    /// current line.
    pub fn step(&mut self, cycles: u32)
        ensures
            final(self).timing_spec() == old(self).timing_spec().advance_spec(cycles),
            final(self).frame() == if old(self).timing_spec().commits_line(cycles) {
                with_line(old(self).frame(), old(self).timing_spec().ly as int, old(self).line())
            } else {
                old(self).frame()
            },
            final(self).line() == old(self).line(),
            final(self).lyc_spec() == old(self).lyc_spec(),
            final(self).stat_spec() == old(self).stat_spec(),
    {
        proof {
            use_type_invariant(&*self);
        }
        let next = self.timing.advance(cycles);
        let commit = match self.timing.mode {
            Mode::Draw => match next.mode {
                Mode::HBlank => true,
                _ => false,
            },
            _ => false,
        };
        if commit {
            self.copy_scanline();
        }
        self.timing = next;
    }

    /// Commits the line buffer to the frame at the current line.
    fn copy_scanline(&mut self)
        requires
            old(self).timing.ly < VISIBLE_LINES,
        ensures
            final(self).frame() == with_line(
                old(self).frame(),
                old(self).timing.ly as int,
                old(self).line(),
            ),
            final(self).timing == old(self).timing,
            final(self).scanline == old(self).scanline,
            final(self).lyc == old(self).lyc,
            final(self).stat == old(self).stat,
    {
        proof {
            use_type_invariant(&*self);
        }
        let start = self.timing.ly as usize * SCREEN_WIDTH * PIXEL_BYTES;
        let mut i: usize = 0;
        while i < LINE_BYTES
            invariant
                i <= LINE_BYTES,
                start == old(self).timing.ly * LINE_BYTES,
                old(self).timing.ly < VISIBLE_LINES,
                self.timing == old(self).timing,
                self.timing.wf(),
                self.scanline == old(self).scanline,
                self.lyc == old(self).lyc,
                self.stat == old(self).stat,
                forall|j: int|
                    0 <= j < FRAME_BYTES ==> self.framebuffer@[j] == if start <= j < start + i {
                        old(self).scanline@[j - start]
                    } else {
                        old(self).framebuffer@[j]
                    },
            decreases LINE_BYTES - i,
        {
            self.framebuffer[start + i] = self.scanline[i];
            i += 1;
        }
        assert(self.frame() =~= with_line(
            old(self).frame(),
            old(self).timing.ly as int,
            old(self).line(),
        ));
    }
}

} // verus!

use vstd::prelude::*;

verus! {

pub const OAM_SEARCH_DURATION: u16 = 80;

pub const PIXEL_TRANSFER_DURATION: u16 = 172;

pub const HBLANK_DURATION: u16 = 204;

pub const LINE_TOTAL_DURATION: u16 = 456;

pub const DRAWN_LINES: u8 = 144;

pub const VBLANK_LINES: u8 = 10;

/// Number of lines in a frame, drawn and blank.
pub const FRAME_LINES: u8 = 154;

/// Number of cycles in a frame: 154 lines of 456 cycles.
pub const FRAME_DURATION: u32 = 70224;

/// The four modes of the per-line state machine.
#[derive(Clone, Copy, Debug, PartialEq, Eq, Structural)]
pub enum PpuMode {
    OAM,
    PixelTransfer,
    HBlank,
    VBlank,
}

/// How many cycles a mode lasts once entered.
pub open spec fn mode_duration_spec(mode: PpuMode) -> int {
    match mode {
        PpuMode::OAM => 80,
        PpuMode::PixelTransfer => 172,
        PpuMode::HBlank => 204,
        PpuMode::VBlank => 4560,
    }
}

/// The mode that follows `mode` when it ends, `line` being the scanline at that moment.
pub open spec fn next_mode_spec(mode: PpuMode, line: int) -> PpuMode {
    match mode {
        PpuMode::OAM => PpuMode::PixelTransfer,
        PpuMode::PixelTransfer => PpuMode::HBlank,
        PpuMode::HBlank => if line < 144 {
            PpuMode::OAM
        } else {
            PpuMode::VBlank
        },
        PpuMode::VBlank => PpuMode::OAM,
    }
}

/// The mode at cycle `dot` of scanline `line`.
pub open spec fn mode_at(line: int, dot: int) -> PpuMode {
    if line >= 144 {
        PpuMode::VBlank
    } else if dot < 80 {
        PpuMode::OAM
    } else if dot < 252 {
        PpuMode::PixelTransfer
    } else {
        PpuMode::HBlank
    }
}

/// How long the PPU has been in its mode at cycle `dot` of scanline `line`.
pub open spec fn mode_cycles_at(line: int, dot: int) -> int {
    if line >= 144 {
        (line - 144) * 456 + dot
    } else if dot < 80 {
        dot
    } else if dot < 252 {
        dot - 80
    } else {
        dot - 252
    }
}

pub fn mode_duration(mode: &PpuMode) -> (r: u16)
    ensures
        r == mode_duration_spec(*mode),
{
    match mode {
        PpuMode::OAM => OAM_SEARCH_DURATION,
        PpuMode::PixelTransfer => PIXEL_TRANSFER_DURATION,
        PpuMode::HBlank => HBLANK_DURATION,
        PpuMode::VBlank => VBLANK_LINES as u16 * LINE_TOTAL_DURATION,
    }
}

pub fn next_mode(mode: &PpuMode, current_line: u8) -> (r: PpuMode)
    ensures
        r == next_mode_spec(*mode, current_line as int),
{
    match mode {
        PpuMode::OAM => PpuMode::PixelTransfer,
        PpuMode::PixelTransfer => PpuMode::HBlank,
        PpuMode::HBlank => {
            if current_line < DRAWN_LINES {
                PpuMode::OAM
            } else {
                PpuMode::VBlank
            }
        },
        PpuMode::VBlank => PpuMode::OAM,
    }
}

/// The pixel-processing unit's timing state.
#[derive(Clone, Copy, Debug)]
pub struct PPU {
    pub cycle_count: u64,
    /// The scanline, LY.
    pub current_line: u8,
    pub current_mode: PpuMode,
    pub cycles_in_current_mode: u16,
    pub cycles_in_current_line: u16,
    /// The background vertical scroll register, SCY.
    pub bg_scroll_y: u8,
}

impl PPU {
    /// The state is one that the PPU reaches: the mode and the cycles spent in it are those of
    /// the current point of the frame.
    pub open spec fn wf(&self) -> bool {
        &&& self.current_line < 154
        &&& self.cycles_in_current_line < 456
        &&& self.current_mode == mode_at(
            self.current_line as int,
            self.cycles_in_current_line as int,
        )
        &&& self.cycles_in_current_mode == mode_cycles_at(
            self.current_line as int,
            self.cycles_in_current_line as int,
        )
    }

    /// How many cycles into the frame the PPU is.
    pub open spec fn frame_position(&self) -> int {
        self.current_line * 456 + self.cycles_in_current_line
    }

    /// A PPU at power-on: line 0, OAM search, no cycle run yet.
    pub open spec fn new_spec() -> PPU {
        PPU {
            cycle_count: 0,
            current_line: 0,
            current_mode: PpuMode::OAM,
            cycles_in_current_mode: 0,
            cycles_in_current_line: 0,
            bg_scroll_y: 0,
        }
    }

    pub fn new() -> (r: PPU)
        ensures
            r == PPU::new_spec(),
            r.wf(),
    {
        PPU {
            cycle_count: 0,
            current_line: 0,
            current_mode: PpuMode::OAM,
            cycles_in_current_mode: 0,
            cycles_in_current_line: 0,
            bg_scroll_y: 0,
        }
    }

    /// Advances the PPU by one machine cycle.
    pub fn cycle(&mut self)
        requires
            old(self).wf(),
            old(self).cycle_count < u64::MAX,
        ensures
            *final(self) == ppu_tick(*old(self)),
            final(self).wf(),
            final(self).current_mode == old(self).current_mode || final(self).current_mode
                == next_mode_spec(old(self).current_mode, final(self).current_line as int),
    {
        proof {
            lemma_mode_order(*old(self));
        }
        self.cycle_count = self.cycle_count + 1;
        self.cycles_in_current_mode = self.cycles_in_current_mode + 1;
        self.cycles_in_current_line = self.cycles_in_current_line + 1;

        let duration = mode_duration(&self.current_mode);

        if self.cycles_in_current_line == LINE_TOTAL_DURATION {
            self.cycles_in_current_line = 0;
            self.current_line = self.current_line + 1;
            if self.current_line >= DRAWN_LINES + VBLANK_LINES {
                self.current_line = 0;
            }
        }
        if duration > 0 && self.cycles_in_current_mode >= duration {
            self.current_mode = next_mode(&self.current_mode, self.current_line);
            self.cycles_in_current_mode = 0;
        }
    }
}

/// The scanline and the cycle within it one cycle after (`line`, `dot`).
pub open spec fn advance_position(line: int, dot: int) -> (int, int) {
    if dot + 1 == 456 {
        (if line + 1 >= 154 {
            0
        } else {
            line + 1
        }, 0)
    } else {
        (line, dot + 1)
    }
}

/// The PPU one machine cycle later.
pub open spec fn ppu_tick(p: PPU) -> PPU {
    let (line, dot) = advance_position(p.current_line as int, p.cycles_in_current_line as int);
    PPU {
        cycle_count: (p.cycle_count + 1) as u64,
        current_line: line as u8,
        current_mode: mode_at(line, dot),
        cycles_in_current_mode: mode_cycles_at(line, dot) as u16,
        cycles_in_current_line: dot as u16,
        bg_scroll_y: p.bg_scroll_y,
    }
}

/// The PPU `n` machine cycles later.
pub open spec fn ppu_ticks(p: PPU, n: nat) -> PPU
    decreases n,
{
    if n == 0 {
        p
    } else {
        ppu_tick(ppu_ticks(p, (n - 1) as nat))
    }
}

/// `later` is `earlier` advanced by `n` machine cycles, with the scroll register set to whatever
/// `later` holds (the CPU may write it between cycles).
#[verifier::opaque]
pub open spec fn ppu_advanced_by(earlier: PPU, later: PPU, n: nat) -> bool {
    later == ppu_ticks(PPU { bg_scroll_y: later.bg_scroll_y, ..earlier }, n)
}

/// Cycling the PPU leaves the scroll register as it was.
pub proof fn lemma_ticks_keep_scroll(p: PPU, n: nat)
    ensures
        ppu_ticks(p, n).bg_scroll_y == p.bg_scroll_y,
    decreases n,
{
    if n > 0 {
        lemma_ticks_keep_scroll(p, (n - 1) as nat);
    }
}

/// Each cycle moves the PPU one position further through the frame, and the frame wraps after
/// 70,224 cycles.
pub proof fn lemma_tick_advances_frame(p: PPU)
    requires
        p.wf(),
    ensures
        ppu_tick(p).wf(),
        ppu_tick(p).frame_position() == (p.frame_position() + 1) % 70224,
        ppu_tick(p).bg_scroll_y == p.bg_scroll_y,
{
}

/// Modes follow one another in the order OAM search, pixel transfer, H-blank, then OAM search
/// again or, after the last drawn line, V-blank, which is followed by OAM search: in one cycle the
/// mode either stays or becomes the one that follows it.
pub proof fn lemma_mode_order(p: PPU)
    requires
        p.wf(),
    ensures
        ppu_tick(p).current_mode == p.current_mode || ppu_tick(p).current_mode == next_mode_spec(
            p.current_mode,
            ppu_tick(p).current_line as int,
        ),
{
}

/// One position past `x`, taken modulo the frame length.
proof fn lemma_frame_mod_succ(x: int)
    requires
        x >= 0,
    ensures
        ((x % 70224) + 1) % 70224 == (x + 1) % 70224,
{
    vstd::arithmetic::div_mod::lemma_fundamental_div_mod(x, 70224);
    let q = x / 70224;
    let r = x % 70224;
    if r + 1 < 70224 {
        vstd::arithmetic::div_mod::lemma_fundamental_div_mod_converse(x + 1, 70224, q, r + 1);
        vstd::arithmetic::div_mod::lemma_fundamental_div_mod_converse(r + 1, 70224, 0, r + 1);
    } else {
        vstd::arithmetic::div_mod::lemma_fundamental_div_mod_converse(x + 1, 70224, q + 1, 0);
        vstd::arithmetic::div_mod::lemma_fundamental_div_mod_converse(r + 1, 70224, 1, 0);
    }
}

/// The position in the frame fixes the scanline, the cycle within it, the mode and the cycles
/// spent in the mode.
proof fn lemma_position_fixes_state(p: PPU, q: PPU)
    requires
        p.wf(),
        q.wf(),
        p.frame_position() == q.frame_position(),
    ensures
        p.current_line == q.current_line,
        p.cycles_in_current_line == q.cycles_in_current_line,
        p.current_mode == q.current_mode,
        p.cycles_in_current_mode == q.cycles_in_current_mode,
{
    lemma_line_of_position(p);
    lemma_line_of_position(q);
}

/// The scanline is the frame position divided by the 456 cycles of a line.
proof fn lemma_line_of_position(p: PPU)
    requires
        p.wf(),
    ensures
        p.current_line == p.frame_position() / 456,
        p.cycles_in_current_line == p.frame_position() % 456,
{
    vstd::arithmetic::div_mod::lemma_fundamental_div_mod_converse(
        p.frame_position(),
        456,
        p.current_line as int,
        p.cycles_in_current_line as int,
    );
}

/// After `k` cycles the PPU stands `k` positions further through the frame, modulo the 70,224
/// cycles of a frame, and its scanline is that position divided by the 456 cycles of a line.
pub proof fn lemma_frame_window(p: PPU, k: nat)
    requires
        p.wf(),
    ensures
        ppu_ticks(p, k).wf(),
        ppu_ticks(p, k).frame_position() == (p.frame_position() + k) % 70224,
        ppu_ticks(p, k).current_line == ppu_ticks(p, k).frame_position() / 456,
        ppu_ticks(p, k).bg_scroll_y == p.bg_scroll_y,
    decreases k,
{
    if k > 0 {
        lemma_frame_window(p, (k - 1) as nat);
        let q = ppu_ticks(p, (k - 1) as nat);
        lemma_tick_advances_frame(q);
        lemma_frame_mod_succ(p.frame_position() + k - 1);
    } else {
        vstd::arithmetic::div_mod::lemma_fundamental_div_mod_converse(
            p.frame_position(),
            70224,
            0,
            p.frame_position(),
        );
    }
    lemma_line_of_position(ppu_ticks(p, k));
}

/// Adding a multiple of the frame length does not change a position taken modulo the frame.
proof fn lemma_frame_mod_shift(b: int, q: int)
    ensures
        (b + q * 70224) % 70224 == b % 70224,
{
    vstd::arithmetic::div_mod::lemma_fundamental_div_mod(b, 70224);
    vstd::arithmetic::div_mod::lemma_fundamental_div_mod_converse(
        b + q * 70224,
        70224,
        b / 70224 + q,
        b % 70224,
    );
}

/// How many cycles after `p` scanline `line` next begins, counted modulo the frame.
pub open spec fn line_start(p: PPU, line: int) -> int {
    (456 * line - p.frame_position() + 70224) % 70224
}

/// Over the 70,224 cycles that follow a reachable state, scanline `line` is current exactly during
/// one unbroken stretch of 456 cycles: the one that begins `line_start(p, line)` cycles in,
/// wrapping around the end of the window. So each of the 154 scanlines is current for exactly 456
/// of those cycles.
pub proof fn lemma_line_stretch(p: PPU, line: int, k: nat)
    requires
        p.wf(),
        0 <= line < 154,
        k < 70224,
    ensures
        ppu_ticks(p, k).current_line < 154,
        (ppu_ticks(p, k).current_line == line) == ((k + 70224 - line_start(p, line)) % 70224 < 456),
{
    lemma_frame_window(p, k);
    let m: int = 70224;
    let pos0 = p.frame_position();
    let x = (pos0 + k) % m;
    let e = 456 * line - pos0 + m;
    vstd::arithmetic::div_mod::lemma_fundamental_div_mod(e, m);
    vstd::arithmetic::div_mod::lemma_fundamental_div_mod(pos0 + k, m);
    let d = e % m;
    assert(k + m - d == (x - 456 * line) + ((pos0 + k) / m + e / m) * m);
    lemma_frame_mod_shift(x - 456 * line, (pos0 + k) / m + e / m);
    let q = ppu_ticks(p, k);
    if x >= 456 * line {
        vstd::arithmetic::div_mod::lemma_fundamental_div_mod_converse(
            x - 456 * line,
            m,
            0,
            x - 456 * line,
        );
    } else {
        vstd::arithmetic::div_mod::lemma_fundamental_div_mod_converse(
            x - 456 * line,
            m,
            -1,
            x - 456 * line + m,
        );
    }
    vstd::arithmetic::div_mod::lemma_fundamental_div_mod(x, 456);
    assert(q.current_line == x / 456);
}

/// Every scanline from 0 to 153 is current at some cycle of any 70,224-cycle window: at the cycle
/// where its stretch begins. With `lemma_line_stretch`, the window visits exactly these 154 values,
/// each for exactly 456 cycles.
pub proof fn lemma_every_line_visited(p: PPU, line: int)
    requires
        p.wf(),
        0 <= line < 154,
    ensures
        0 <= line_start(p, line) < 70224,
        ppu_ticks(p, line_start(p, line) as nat).current_line == line,
{
    let d = line_start(p, line);
    vstd::arithmetic::div_mod::lemma_fundamental_div_mod(456 * line - p.frame_position() + 70224, 70224);
    vstd::arithmetic::div_mod::lemma_fundamental_div_mod_converse(d + 70224 - d, 70224, 1, 0);
    lemma_line_stretch(p, line, d as nat);
}

/// A whole frame of 70,224 cycles brings the PPU back to the state it started from, but for its
/// cycle counter.
pub proof fn lemma_frame_period(p: PPU)
    requires
        p.wf(),
    ensures
        ppu_ticks(p, 70224) == (PPU { cycle_count: ppu_ticks(p, 70224).cycle_count, ..p }),
{
    lemma_frame_window(p, 70224);
    let q = ppu_ticks(p, 70224);
    vstd::arithmetic::div_mod::lemma_fundamental_div_mod_converse(
        p.frame_position() + 70224,
        70224,
        1,
        p.frame_position(),
    );
    lemma_position_fixes_state(p, q);
}

} // verus!

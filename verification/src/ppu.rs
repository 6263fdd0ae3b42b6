//! The picture processing unit, as the bus consumes it: register reads and
//! writes, sprite memory, the 341-dot / 262-scanline frame clock, and the
//! NMI latch raised at the start of vertical blank.
//!
//! Rendering itself (pixel and palette translation) is a host concern; the
//! model here carries exactly the state the registers and the frame clock
//! touch. Every transition has a spec-level counterpart (`ppu_after_*`),
//! and each method proves it realises that counterpart.

use vstd::prelude::*;
use crate::cartridge::Mirroring;

verus! {

/// Abstract state of the PPU.
pub struct PpuView {
    pub chr: Seq<u8>,
    pub palette: Seq<u8>,
    pub vram: Seq<u8>,
    pub oam: Seq<u8>,
    pub oam_addr: u8,
    pub mirroring: Mirroring,
    pub ctrl: u8,
    pub mask: u8,
    pub status: u8,
    pub scroll_x: u8,
    pub scroll_y: u8,
    pub scroll_latch_y: bool,
    pub addr: u16,
    pub addr_latch_lo: bool,
    pub buffer: u8,
    pub scanline: u16,
    pub cycle: u32,
    pub dots: u64,
    pub nmi_interrupt: Option<u8>,
}

pub struct Ppu {
    pub chr_rom: Vec<u8>,
    pub palette_table: Vec<u8>,
    pub vram: Vec<u8>,
    pub oam_data: Vec<u8>,
    pub oam_addr: u8,
    pub mirroring: Mirroring,
    pub ctrl: u8,
    pub mask: u8,
    pub status: u8,
    pub scroll_x: u8,
    pub scroll_y: u8,
    pub scroll_latch_y: bool,
    pub addr: u16,
    pub addr_latch_lo: bool,
    pub buffer: u8,
    pub scanline: u16,
    pub cycle: u32,
    pub dots: u64,
    pub nmi_interrupt: Option<u8>,
}

impl View for Ppu {
    type V = PpuView;

    open spec fn view(&self) -> PpuView {
        PpuView {
            chr: self.chr_rom@,
            palette: self.palette_table@,
            vram: self.vram@,
            oam: self.oam_data@,
            oam_addr: self.oam_addr,
            mirroring: self.mirroring,
            ctrl: self.ctrl,
            mask: self.mask,
            status: self.status,
            scroll_x: self.scroll_x,
            scroll_y: self.scroll_y,
            scroll_latch_y: self.scroll_latch_y,
            addr: self.addr,
            addr_latch_lo: self.addr_latch_lo,
            buffer: self.buffer,
            scanline: self.scanline,
            cycle: self.cycle,
            dots: self.dots,
            nmi_interrupt: self.nmi_interrupt,
        }
    }
}

impl PpuView {
    /// Structural validity: fixed-size memories, the frame clock inside one
    /// scanline, the scanline inside one frame, and the address register
    /// inside PPU address space.
    pub open spec fn wf(self) -> bool {
        &&& self.palette.len() == 32
        &&& self.vram.len() == 2048
        &&& self.oam.len() == 256
        &&& self.cycle < 341
        &&& self.scanline < 262
        &&& self.addr < 0x4000
    }
}

/// Address step applied by a data-port access: 32 in column mode, else 1.
pub open spec fn vram_increment(ctrl: u8) -> u16 {
    if ctrl & 0x04 != 0 {
        32
    } else {
        1
    }
}

/// Nametable index for an address in `[0x2000, 0x3f00)`: the 0x3000 mirror is
/// folded down, then the selected mirroring folds the four nametables onto
/// the 2 KiB of VRAM (four-screen, which would need external memory, wraps
/// onto the same 2 KiB).
pub open spec fn vram_mirror(m: Mirroring, a: u16) -> int {
    let idx = (a - 0x2000) % 0x1000;
    let table = idx / 0x400;
    match m {
        Mirroring::Vertical => idx % 0x800,
        Mirroring::Horizontal => (
            if table == 1 || table == 2 {
                idx - 0x400
            } else if table == 3 {
                idx - 0x800
            } else {
                idx
            }
        ),
        Mirroring::FourScreen => idx % 0x800,
    }
}

/// Palette index for an address in `[0x3f00, 0x4000)`: 32-byte mirroring,
/// with 0x3f10/0x3f14/0x3f18/0x3f1c folded onto 0x3f00/0x3f04/0x3f08/0x3f0c.
pub open spec fn palette_index(a: u16) -> int {
    let idx = (a - 0x3f00) % 0x20;
    if idx >= 0x10 && idx % 4 == 0 {
        idx - 0x10
    } else {
        idx
    }
}

/// What a data-port read returns: the buffered byte for pattern and
/// nametable space, the palette entry directly for palette space.
pub open spec fn ppu_data_value(p: PpuView) -> u8 {
    if p.addr < 0x3f00 {
        p.buffer
    } else {
        p.palette[palette_index(p.addr)]
    }
}

/// What refills the read buffer: CHR ROM below 0x2000 (0 past its end),
/// mirrored VRAM up to the palettes, and for a palette read the buffer
/// keeps its value.
pub open spec fn ppu_data_refill(p: PpuView) -> u8 {
    if p.addr < 0x2000 {
        if p.addr < p.chr.len() {
            p.chr[p.addr as int]
        } else {
            0
        }
    } else if p.addr < 0x3f00 {
        p.vram[vram_mirror(p.mirroring, p.addr)]
    } else {
        p.buffer
    }
}

/// State after a data-port read: buffer refilled, address stepped.
pub open spec fn ppu_after_data_read(p: PpuView) -> PpuView {
    PpuView {
        buffer: ppu_data_refill(p),
        addr: ((p.addr + vram_increment(p.ctrl)) % 0x4000) as u16,
        ..p
    }
}

/// State after a status read: vblank cleared, both write latches reset.
pub open spec fn ppu_after_status_read(p: PpuView) -> PpuView {
    PpuView { status: p.status & 0x7f, scroll_latch_y: false, addr_latch_lo: false, ..p }
}

/// State after a control write: an NMI is latched when NMI-enable rises
/// while vblank is in progress.
pub open spec fn ppu_after_ctrl_write(p: PpuView, v: u8) -> PpuView {
    PpuView {
        ctrl: v,
        nmi_interrupt: (
            if p.status & 0x80 != 0 && p.ctrl & 0x80 == 0 && v & 0x80 != 0 {
                Some(1u8)
            } else {
                p.nmi_interrupt
            }
        ),
        ..p
    }
}

pub open spec fn ppu_after_oam_data_write(p: PpuView, v: u8) -> PpuView {
    PpuView {
        oam: p.oam.update(p.oam_addr as int, v),
        oam_addr: ((p.oam_addr + 1) % 256) as u8,
        ..p
    }
}

pub open spec fn ppu_after_scroll_write(p: PpuView, v: u8) -> PpuView {
    if p.scroll_latch_y {
        PpuView { scroll_y: v, scroll_latch_y: false, ..p }
    } else {
        PpuView { scroll_x: v, scroll_latch_y: true, ..p }
    }
}

/// State after an address write: high byte first (kept inside the 14-bit
/// space), then the low byte; the latch alternates.
pub open spec fn ppu_after_addr_write(p: PpuView, v: u8) -> PpuView {
    if p.addr_latch_lo {
        PpuView { addr: ((p.addr / 256) * 256 + v) as u16, addr_latch_lo: false, ..p }
    } else {
        PpuView { addr: ((v % 0x40) * 256 + p.addr % 256) as u16, addr_latch_lo: true, ..p }
    }
}

/// State after a data-port write: pattern space is read-only, nametable and
/// palette space take the byte; the address steps as on a read.
pub open spec fn ppu_after_data_write(p: PpuView, v: u8) -> PpuView {
    let stepped = ((p.addr + vram_increment(p.ctrl)) % 0x4000) as u16;
    if p.addr < 0x2000 {
        PpuView { addr: stepped, ..p }
    } else if p.addr < 0x3f00 {
        PpuView { vram: p.vram.update(vram_mirror(p.mirroring, p.addr), v), addr: stepped, ..p }
    } else {
        PpuView { palette: p.palette.update(palette_index(p.addr), v), addr: stepped, ..p }
    }
}

/// One scanline boundary: at line 241 vblank starts and, when enabled, the
/// NMI latch is set; past line 261 the frame wraps and vblank ends.
pub open spec fn ppu_scanline_step(p: PpuView) -> PpuView {
    let q = PpuView { cycle: (p.cycle - 341) as u32, scanline: (p.scanline + 1) as u16, ..p };
    let r = if q.scanline == 241 {
        PpuView {
            status: q.status | 0x80,
            nmi_interrupt: if q.ctrl & 0x80 != 0 {
                Some(1u8)
            } else {
                q.nmi_interrupt
            },
            ..q
        }
    } else {
        q
    };
    if r.scanline >= 262 {
        PpuView { scanline: 0, status: r.status & 0x7f, nmi_interrupt: None, ..r }
    } else {
        r
    }
}

/// Folds scanline boundaries until the dot counter is inside one scanline.
pub open spec fn ppu_norm(p: PpuView) -> PpuView
    decreases p.cycle,
{
    if p.cycle >= 341 {
        ppu_norm(ppu_scanline_step(p))
    } else {
        p
    }
}

/// Saturating cumulative dot counter.
pub open spec fn sat_add64(a: u64, b: u64) -> u64 {
    if a + b > u64::MAX {
        u64::MAX
    } else {
        (a + b) as u64
    }
}

/// State after advancing `d` dots: the cumulative counter grows by exactly
/// `d` (up to saturation) and the frame clock is renormalised.
pub open spec fn ppu_after_tick(p: PpuView, d: u16) -> PpuView {
    ppu_norm(PpuView { cycle: (p.cycle + d) as u32, dots: sat_add64(p.dots, d as u64), ..p })
}

/// Which slot of the incoming block lands on OAM byte `k` when a transfer
/// starts at `start`.
pub open spec fn dma_index(start: u8, k: int) -> int {
    (k + 256 - start) % 256
}

/// OAM after a 256-byte transfer beginning at `start` and wrapping.
pub open spec fn oam_after_dma(start: u8, data: Seq<u8>) -> Seq<u8> {
    Seq::new(256, |k: int| data[dma_index(start, k)])
}

/// Renormalising the frame clock never touches the cumulative dot counter.
pub proof fn lemma_norm_dots(p: PpuView)
    ensures
        ppu_norm(p).dots == p.dots,
    decreases p.cycle,
{
    if p.cycle >= 341 {
        lemma_norm_dots(ppu_scanline_step(p));
    }
}

proof fn lemma_mod256(x: int)
    requires
        0 <= x < 512,
    ensures
        x % 256 == if x < 256 { x } else { x - 256 },
{
    if x < 256 {
        assert(x % 256 == x) by (nonlinear_arith)
            requires 0 <= x < 256;
    } else {
        assert(x % 256 == x - 256) by (nonlinear_arith)
            requires 256 <= x < 512;
    }
}

pub(crate) fn zero_vec(n: usize) -> (v: Vec<u8>)
    ensures
        v@.len() == n,
        forall|i: int| 0 <= i < n ==> v@[i] == 0,
{
    let mut v: Vec<u8> = Vec::new();
    let mut i: usize = 0;
    while i < n
        invariant
            i <= n,
            v@.len() == i,
            forall|j: int| 0 <= j < i ==> v@[j] == 0,
        decreases n - i,
    {
        v.push(0);
        i = i + 1;
    }
    v
}

impl Ppu {
    /// A freshly powered PPU over the cartridge's pattern data.
    pub fn new(chr_rom: Vec<u8>, mirroring: Mirroring) -> (p: Ppu)
        ensures
            p@.wf(),
            p@.chr == chr_rom@,
            p@.mirroring == mirroring,
            p@.ctrl == 0 && p@.mask == 0 && p@.status == 0,
            p@.oam_addr == 0 && p@.addr == 0 && p@.buffer == 0,
            p@.scanline == 0 && p@.cycle == 0 && p@.dots == 0,
            p@.nmi_interrupt is None,
            forall|i: int| 0 <= i < 2048 ==> p@.vram[i] == 0,
            forall|i: int| 0 <= i < 256 ==> p@.oam[i] == 0,
            forall|i: int| 0 <= i < 32 ==> p@.palette[i] == 0,
    {
        Ppu {
            chr_rom,
            palette_table: zero_vec(32),
            vram: zero_vec(2048),
            oam_data: zero_vec(256),
            oam_addr: 0,
            mirroring,
            ctrl: 0,
            mask: 0,
            status: 0,
            scroll_x: 0,
            scroll_y: 0,
            scroll_latch_y: false,
            addr: 0,
            addr_latch_lo: false,
            buffer: 0,
            scanline: 0,
            cycle: 0,
            dots: 0,
            nmi_interrupt: None,
        }
    }

    /// Reads the status register: returns it and clears vblank and the
    /// write latches.
    pub fn read_status(&mut self) -> (r: u8)
        ensures
            r == old(self)@.status,
            final(self)@ == ppu_after_status_read(old(self)@),
    {
        let data: u8 = self.status;
        self.status = self.status & 0x7f;
        self.scroll_latch_y = false;
        self.addr_latch_lo = false;
        data
    }

    /// Reads OAM at the current OAM address; no state changes.
    pub fn read_oam_data(&self) -> (r: u8)
        requires
            self@.wf(),
        ensures
            r == self@.oam[self@.oam_addr as int],
    {
        self.oam_data[self.oam_addr as usize]
    }

    /// Buffered data-port read; steps the address register.
    pub fn read_data(&mut self) -> (r: u8)
        requires
            old(self)@.wf(),
        ensures
            r == ppu_data_value(old(self)@),
            final(self)@ == ppu_after_data_read(old(self)@),
            final(self)@.wf(),
    {
        let a: u16 = self.addr;
        let inc: u16 = if self.ctrl & 0x04 != 0 { 32 } else { 1 };
        self.addr = (a + inc) % 0x4000;
        if a < 0x2000 {
            let result: u8 = self.buffer;
            self.buffer = if (a as usize) < self.chr_rom.len() {
                self.chr_rom[a as usize]
            } else {
                0
            };
            result
        } else if a < 0x3f00 {
            let result: u8 = self.buffer;
            self.buffer = self.vram[Self::mirror_index(self.mirroring, a)];
            result
        } else {
            self.palette_table[Self::palette_slot(a)]
        }
    }

    /// Executable counterpart of `vram_mirror`.
    fn mirror_index(m: Mirroring, a: u16) -> (i: usize)
        requires
            0x2000 <= a < 0x3f00,
        ensures
            i == vram_mirror(m, a),
            i < 2048,
    {
        let idx: u16 = (a - 0x2000) % 0x1000;
        let table: u16 = idx / 0x400;
        let folded: u16 = match m {
            Mirroring::Vertical => idx % 0x800,
            Mirroring::Horizontal => {
                if table == 1 || table == 2 {
                    idx - 0x400
                } else if table == 3 {
                    idx - 0x800
                } else {
                    idx
                }
            },
            Mirroring::FourScreen => idx % 0x800,
        };
        folded as usize
    }

    /// Executable counterpart of `palette_index`.
    fn palette_slot(a: u16) -> (i: usize)
        requires
            0x3f00 <= a < 0x4000,
        ensures
            i == palette_index(a),
            i < 32,
    {
        let idx: u16 = (a - 0x3f00) % 0x20;
        if idx >= 0x10 && idx % 4 == 0 {
            (idx - 0x10) as usize
        } else {
            idx as usize
        }
    }

    pub fn write_to_ctrl(&mut self, value: u8)
        ensures
            final(self)@ == ppu_after_ctrl_write(old(self)@, value),
    {
        if self.status & 0x80 != 0 && self.ctrl & 0x80 == 0 && value & 0x80 != 0 {
            self.nmi_interrupt = Some(1);
        }
        self.ctrl = value;
    }

    pub fn write_to_mask(&mut self, value: u8)
        ensures
            final(self)@ == (PpuView { mask: value, ..old(self)@ }),
    {
        self.mask = value;
    }

    pub fn write_to_oam_addr(&mut self, value: u8)
        ensures
            final(self)@ == (PpuView { oam_addr: value, ..old(self)@ }),
    {
        self.oam_addr = value;
    }

    pub fn write_to_oam_data(&mut self, value: u8)
        requires
            old(self)@.wf(),
        ensures
            final(self)@ == ppu_after_oam_data_write(old(self)@, value),
            final(self)@.wf(),
    {
        self.oam_data.set(self.oam_addr as usize, value);
        self.oam_addr = ((self.oam_addr as u16 + 1) % 256) as u8;
    }

    pub fn write_to_scroll(&mut self, value: u8)
        ensures
            final(self)@ == ppu_after_scroll_write(old(self)@, value),
    {
        if self.scroll_latch_y {
            self.scroll_y = value;
            self.scroll_latch_y = false;
        } else {
            self.scroll_x = value;
            self.scroll_latch_y = true;
        }
    }

    pub fn write_to_ppu_addr(&mut self, value: u8)
        ensures
            final(self)@ == ppu_after_addr_write(old(self)@, value),
            old(self)@.wf() ==> final(self)@.wf(),
    {
        if self.addr_latch_lo {
            self.addr = (self.addr / 256) * 256 + value as u16;
            self.addr_latch_lo = false;
        } else {
            self.addr = (value as u16 % 0x40) * 256 + self.addr % 256;
            self.addr_latch_lo = true;
        }
    }

    pub fn write_to_data(&mut self, value: u8)
        requires
            old(self)@.wf(),
        ensures
            final(self)@ == ppu_after_data_write(old(self)@, value),
            final(self)@.wf(),
    {
        let a: u16 = self.addr;
        let inc: u16 = if self.ctrl & 0x04 != 0 { 32 } else { 1 };
        self.addr = (a + inc) % 0x4000;
        if a < 0x2000 {
            // pattern space is cartridge ROM: the write is ignored
        } else if a < 0x3f00 {
            let i: usize = Self::mirror_index(self.mirroring, a);
            self.vram.set(i, value);
        } else {
            let i: usize = Self::palette_slot(a);
            self.palette_table.set(i, value);
        }
    }

    /// Copies a 256-byte block into OAM, starting at the current OAM address
    /// and wrapping; the OAM address is back where it started afterwards.
    pub fn write_oam_dma(&mut self, data: &Vec<u8>)
        requires
            old(self)@.wf(),
            data@.len() == 256,
        ensures
            final(self)@ == (PpuView { oam: oam_after_dma(old(self)@.oam_addr, data@), ..old(self)@ }),
            final(self)@.wf(),
    {
        let start: u8 = self.oam_addr;
        let mut i: usize = 0;
        while i < 256
            invariant
                i <= 256,
                self@.oam.len() == 256,
                data@.len() == 256,
                start == self@.oam_addr,
                self@ == (PpuView { oam: self@.oam, ..old(self)@ }),
                forall|k: int| 0 <= k < 256 ==> self@.oam[k] == (
                    if dma_index(start, k) < i {
                        data@[dma_index(start, k)]
                    } else {
                        old(self)@.oam[k]
                    }
                ),
            decreases 256 - i,
        {
            let slot: usize = ((start as usize) + i) % 256;
            proof {
                lemma_mod256(start + i);
                assert(dma_index(start, slot as int) == i) by {
                    lemma_mod256(slot + 256 - start);
                };
            }
            self.oam_data.set(slot, data[i]);
            i = i + 1;
        }
        proof {
            assert(self@.oam =~= oam_after_dma(start, data@));
            assert(self@ == (PpuView { oam: oam_after_dma(old(self)@.oam_addr, data@), ..old(self)@ }));
        }
    }

    /// Advances the frame clock by `dots` dots.
    pub fn tick(&mut self, dots: u16)
        requires
            old(self)@.wf(),
        ensures
            final(self)@ == ppu_after_tick(old(self)@, dots),
            final(self)@.wf(),
            final(self)@.dots == sat_add64(old(self)@.dots, dots as u64),
    {
        self.dots = self.dots.saturating_add(dots as u64);
        self.cycle = self.cycle + dots as u32;
        let ghost started = self@;
        while self.cycle >= 341
            invariant
                ppu_norm(self@) == ppu_norm(started),
                self@ == (PpuView { cycle: self@.cycle, scanline: self@.scanline, status: self@.status, nmi_interrupt: self@.nmi_interrupt, ..started }),
                self@.scanline < 262,
                self@.cycle <= started.cycle,
            decreases self@.cycle,
        {
            let ghost before = self@;
            self.cycle = self.cycle - 341;
            self.scanline = self.scanline + 1;
            if self.scanline == 241 {
                self.status = self.status | 0x80;
                if self.ctrl & 0x80 != 0 {
                    self.nmi_interrupt = Some(1);
                }
            }
            if self.scanline >= 262 {
                self.scanline = 0;
                self.status = self.status & 0x7f;
                self.nmi_interrupt = None;
            }
            proof {
                assert(self@ == ppu_scanline_step(before));
            }
        }
    }

    /// Hands out the pending NMI, clearing the latch.
    pub fn poll_nmi_interrupt(&mut self) -> (r: Option<u8>)
        ensures
            r == old(self)@.nmi_interrupt,
            final(self)@ == (PpuView { nmi_interrupt: None, ..old(self)@ }),
    {
        let r: Option<u8> = self.nmi_interrupt;
        self.nmi_interrupt = None;
        r
    }
}

} // verus!

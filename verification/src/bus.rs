//! The bus: 16-bit address decode over work RAM (mirrored every 2 KiB), the
//! PPU registers (mirrored every 8 bytes up to 0x3fff), the controller port,
//! PRG ROM (a single 16 KiB bank mirrored across the upper window), OAM DMA,
//! and the tick fan-out that converts CPU cycles into PPU dots (three per
//! cycle) and latches the frame signal on the NMI edge.
//!
//! The whole decode is a pair of spec functions: `bus_peek` gives the value a
//! read returns and `bus_after_read` / `bus_after_write` give the state that
//! follows; `mem_read` and `mem_write` prove they realise them exactly.

use vstd::prelude::*;
use crate::cartridge::{Rom, rom_wf};
use crate::cpu::Mem;
use crate::joypad::{Joypad, JoypadButton, joypad_read_value, joypad_after_read, joypad_after_write, button_mask};
use crate::ppu::{Ppu, PpuView, ppu_data_value, ppu_after_data_read, ppu_after_status_read, ppu_after_ctrl_write, ppu_after_oam_data_write, ppu_after_scroll_write, ppu_after_addr_write, ppu_after_data_write, ppu_after_tick, oam_after_dma, sat_add64, zero_vec};

verus! {

/// Abstract state of the bus.
pub struct BusView {
    pub ram: Seq<u8>,
    pub prg: Seq<u8>,
    pub ppu: PpuView,
    pub joypad: Joypad,
    pub cycles: u64,
    pub frame_pending: bool,
    pub fault: bool,
}

pub struct Bus {
    pub cpu_vram: Vec<u8>,
    pub prg_rom: Vec<u8>,
    pub ppu: Ppu,
    pub joypad1: Joypad,
    pub cycles: u64,
    pub frame_pending: bool,
    /// Latched when emulated code performs a write that the hardware
    /// forbids: to cartridge ROM or to the PPU status register. Such a write
    /// is a logic error in the emulated program; the write itself is
    /// ignored, and the host observes the latch.
    pub fault: bool,
}

impl View for Bus {
    type V = BusView;

    open spec fn view(&self) -> BusView {
        BusView {
            ram: self.cpu_vram@,
            prg: self.prg_rom@,
            ppu: self.ppu@,
            joypad: self.joypad1,
            cycles: self.cycles,
            frame_pending: self.frame_pending,
            fault: self.fault,
        }
    }
}

impl BusView {
    /// Structural validity: 2 KiB of RAM, one or two PRG banks, a valid PPU.
    pub open spec fn wf(self) -> bool {
        &&& self.ram.len() == 2048
        &&& (self.prg.len() == 0x4000 || self.prg.len() == 0x8000)
        &&& self.ppu.wf()
    }
}

/// RAM slot for an address in `[0, 0x2000)`: mirrored every 2 KiB.
pub open spec fn ram_index(a: u16) -> int {
    (a % 0x800) as int
}

/// PPU register for an address in `[0x2000, 0x4000)`: mirrored every 8.
pub open spec fn ppu_register(a: u16) -> u16 {
    (0x2000 + a % 8) as u16
}

/// PRG slot for an address in `[0x8000, 0xffff]`: a single 16 KiB bank is
/// mirrored into the upper window.
pub open spec fn prg_index(prg_len: int, a: u16) -> int {
    if prg_len == 0x4000 && a - 0x8000 >= 0x4000 {
        (a - 0x8000) % 0x4000
    } else {
        a - 0x8000
    }
}

/// The value a read returns, for every address. Write-only PPU registers,
/// the APU range, the second controller and the open range read 0.
pub open spec fn bus_peek(b: BusView, a: u16) -> u8 {
    if a < 0x2000 {
        b.ram[ram_index(a)]
    } else if a < 0x4000 {
        if ppu_register(a) == 0x2002 {
            b.ppu.status
        } else if ppu_register(a) == 0x2004 {
            b.ppu.oam[b.ppu.oam_addr as int]
        } else if ppu_register(a) == 0x2007 {
            ppu_data_value(b.ppu)
        } else {
            0
        }
    } else if a == 0x4016 {
        joypad_read_value(b.joypad)
    } else if a < 0x8000 {
        0
    } else {
        b.prg[prg_index(b.prg.len() as int, a)]
    }
}

/// The state after a read: only the status register (vblank and latch
/// clear), the data port (buffer and address step) and the controller port
/// (shift index) have side effects.
pub open spec fn bus_after_read(b: BusView, a: u16) -> BusView {
    if 0x2000 <= a < 0x4000 {
        if ppu_register(a) == 0x2002 {
            BusView { ppu: ppu_after_status_read(b.ppu), ..b }
        } else if ppu_register(a) == 0x2007 {
            BusView { ppu: ppu_after_data_read(b.ppu), ..b }
        } else {
            b
        }
    } else if a == 0x4016 {
        BusView { joypad: joypad_after_read(b.joypad), ..b }
    } else {
        b
    }
}

/// Source address of the `i`-th byte of an OAM DMA transfer from `page`.
pub open spec fn dma_addr(page: u8, i: int) -> u16 {
    (page * 256 + i) as u16
}

/// Bus state after the first `n` DMA source reads (each one an ordinary
/// bus read, so reading through a side-effecting register is accounted for).
pub open spec fn dma_bus(b: BusView, page: u8, n: int) -> BusView
    decreases n,
{
    if n <= 0 {
        b
    } else {
        bus_after_read(dma_bus(b, page, n - 1), dma_addr(page, n - 1))
    }
}

/// The 256 bytes an OAM DMA transfer reads from `page`.
pub open spec fn dma_block(b: BusView, page: u8) -> Seq<u8> {
    Seq::new(256, |i: int| bus_peek(dma_bus(b, page, i), dma_addr(page, i)))
}

/// State after a write of `page` to the DMA port: 256 source reads followed
/// by the block landing in OAM at the current OAM address.
pub open spec fn bus_after_dma(b: BusView, page: u8) -> BusView {
    let done = dma_bus(b, page, 256);
    BusView {
        ppu: PpuView { oam: oam_after_dma(done.ppu.oam_addr, dma_block(b, page)), ..done.ppu },
        ..done
    }
}

/// The state after a write, for every address. Writes to the APU range, the
/// second controller and the open range are ignored; writes to the PPU
/// status register and to cartridge ROM are ignored too, but they are
/// illegal, so they latch the fault flag.
pub open spec fn bus_after_write(b: BusView, a: u16, v: u8) -> BusView {
    if a < 0x2000 {
        BusView { ram: b.ram.update(ram_index(a), v), ..b }
    } else if a < 0x4000 {
        let r = ppu_register(a);
        if r == 0x2000 {
            BusView { ppu: ppu_after_ctrl_write(b.ppu, v), ..b }
        } else if r == 0x2001 {
            BusView { ppu: PpuView { mask: v, ..b.ppu }, ..b }
        } else if r == 0x2003 {
            BusView { ppu: PpuView { oam_addr: v, ..b.ppu }, ..b }
        } else if r == 0x2004 {
            BusView { ppu: ppu_after_oam_data_write(b.ppu, v), ..b }
        } else if r == 0x2005 {
            BusView { ppu: ppu_after_scroll_write(b.ppu, v), ..b }
        } else if r == 0x2006 {
            BusView { ppu: ppu_after_addr_write(b.ppu, v), ..b }
        } else if r == 0x2007 {
            BusView { ppu: ppu_after_data_write(b.ppu, v), ..b }
        } else {
            BusView { fault: true, ..b }
        }
    } else if a == 0x4014 {
        bus_after_dma(b, v)
    } else if a == 0x4016 {
        BusView { joypad: joypad_after_write(b.joypad, v), ..b }
    } else if a >= 0x8000 {
        BusView { fault: true, ..b }
    } else {
        b
    }
}

/// Wrap-around successor of a 16-bit address.
pub open spec fn wrap_inc16(a: u16) -> u16 {
    if a == 0xffff {
        0
    } else {
        (a + 1) as u16
    }
}

/// Little-endian word a 16-bit read returns (the low read happens first and
/// may change the state the high read sees).
pub open spec fn read16_val(b: BusView, pos: u16) -> u16 {
    (bus_peek(bus_after_read(b, pos), wrap_inc16(pos)) * 256 + bus_peek(b, pos)) as u16
}

/// State after a 16-bit read.
pub open spec fn read16_next(b: BusView, pos: u16) -> BusView {
    bus_after_read(bus_after_read(b, pos), wrap_inc16(pos))
}

/// State after a 16-bit write: low byte at `pos`, high byte after it.
pub open spec fn write16_next(b: BusView, pos: u16, data: u16) -> BusView {
    bus_after_write(bus_after_write(b, pos, (data % 256) as u8), wrap_inc16(pos), (data / 256) as u8)
}

/// State after charging `n` CPU cycles: the counter grows by `n` (up to
/// saturation), the PPU advances three dots per cycle, and the frame signal
/// latches exactly when the NMI latch rises.
pub open spec fn bus_after_tick(b: BusView, n: u8) -> BusView {
    let advanced = ppu_after_tick(b.ppu, (3 * n) as u16);
    BusView {
        cycles: sat_add64(b.cycles, n as u64),
        ppu: advanced,
        frame_pending: b.frame_pending || (b.ppu.nmi_interrupt is None && advanced.nmi_interrupt is Some),
        ..b
    }
}

impl Bus {
    /// A freshly powered bus over a loaded cartridge.
    pub fn new(rom: Rom) -> (b: Bus)
        requires
            rom_wf(rom),
        ensures
            b@.wf(),
            b@.prg == rom.prg_rom@,
            b@.ppu.chr == rom.chr_rom@,
            b@.ppu.mirroring == rom.screen_mirroring,
            b@.cycles == 0,
            b@.frame_pending == false,
            b@.fault == false,
            b@.ppu.nmi_interrupt is None,
            b@.ppu.dots == 0,
            b@.ppu.ctrl == 0 && b@.ppu.status == 0 && b@.ppu.oam_addr == 0,
            b@.joypad.strobe == false && b@.joypad.button_index == 0 && b@.joypad.button_status == 0,
            forall|i: int| 0 <= i < 2048 ==> b@.ram[i] == 0,
            forall|i: int| 0 <= i < 256 ==> b@.ppu.oam[i] == 0,
    {
        let ppu = Ppu::new(rom.chr_rom, rom.screen_mirroring);
        Bus {
            cpu_vram: zero_vec(2048),
            prg_rom: rom.prg_rom,
            ppu,
            joypad1: Joypad::new(),
            cycles: 0,
            frame_pending: false,
            fault: false,
        }
    }

    /// Charges `cycles` CPU cycles: the cycle counter never decreases, the
    /// PPU advances exactly three dots per cycle, and the frame signal is
    /// raised (at most once) when the PPU enters vblank with NMI enabled.
    pub fn tick(&mut self, cycles: u8)
        requires
            old(self)@.wf(),
        ensures
            final(self)@ == bus_after_tick(old(self)@, cycles),
            final(self)@.wf(),
            final(self)@.cycles >= old(self)@.cycles,
            final(self)@.ppu.dots == sat_add64(old(self)@.ppu.dots, (3 * cycles) as u64),
    {
        self.cycles = self.cycles.saturating_add(cycles as u64);
        let nmi_before: bool = self.ppu.nmi_interrupt.is_some();
        self.ppu.tick(3 * (cycles as u16));
        let nmi_after: bool = self.ppu.nmi_interrupt.is_some();
        if !nmi_before && nmi_after {
            self.frame_pending = true;
        }
    }

    /// Takes the pending NMI, clearing the PPU's latch.
    pub fn poll_nmi_status(&mut self) -> (r: Option<u8>)
        ensures
            r == old(self)@.ppu.nmi_interrupt,
            final(self)@ == (BusView { ppu: PpuView { nmi_interrupt: None, ..old(self)@.ppu }, ..old(self)@ }),
    {
        self.ppu.poll_nmi_interrupt()
    }

    /// Takes the frame signal raised by `tick` on the NMI edge; the host
    /// renders a frame and pumps input when this returns true.
    pub fn take_frame_signal(&mut self) -> (r: bool)
        ensures
            r == old(self)@.frame_pending,
            final(self)@ == (BusView { frame_pending: false, ..old(self)@ }),
    {
        let r: bool = self.frame_pending;
        self.frame_pending = false;
        r
    }

    /// Presses or releases a controller button.
    pub fn set_button_pressed(&mut self, button: JoypadButton, pressed: bool)
        ensures
            final(self)@ == (BusView {
                joypad: Joypad {
                    button_status: (
                        if pressed {
                            old(self)@.joypad.button_status | button_mask(button)
                        } else {
                            old(self)@.joypad.button_status & !button_mask(button)
                        }
                    ),
                    ..old(self)@.joypad
                },
                ..old(self)@
            }),
    {
        self.joypad1.set_button_pressed(button, pressed);
    }
}

impl Mem for Bus {
    open spec fn mem_wf(&self) -> bool {
        self@.wf()
    }

    fn mem_read(&mut self, addr: u16) -> (r: u8)
        ensures
            r == bus_peek(old(self)@, addr),
            final(self)@ == bus_after_read(old(self)@, addr),
    {
        if addr < 0x2000 {
            self.cpu_vram[(addr % 0x800) as usize]
        } else if addr < 0x4000 {
            let reg: u16 = 0x2000 + addr % 8;
            if reg == 0x2002 {
                self.ppu.read_status()
            } else if reg == 0x2004 {
                self.ppu.read_oam_data()
            } else if reg == 0x2007 {
                self.ppu.read_data()
            } else {
                0
            }
        } else if addr == 0x4016 {
            self.joypad1.read()
        } else if addr < 0x8000 {
            0
        } else {
            let offset: u16 = addr - 0x8000;
            if self.prg_rom.len() == 0x4000 && offset >= 0x4000 {
                self.prg_rom[(offset % 0x4000) as usize]
            } else {
                self.prg_rom[offset as usize]
            }
        }
    }

    fn mem_write(&mut self, addr: u16, data: u8)
        ensures
            final(self)@ == bus_after_write(old(self)@, addr, data),
    {
        if addr < 0x2000 {
            self.cpu_vram.set((addr % 0x800) as usize, data);
        } else if addr < 0x4000 {
            let reg: u16 = 0x2000 + addr % 8;
            if reg == 0x2000 {
                self.ppu.write_to_ctrl(data);
            } else if reg == 0x2001 {
                self.ppu.write_to_mask(data);
            } else if reg == 0x2002 {
                // the status register is read-only: the write is illegal
                self.fault = true;
            } else if reg == 0x2003 {
                self.ppu.write_to_oam_addr(data);
            } else if reg == 0x2004 {
                self.ppu.write_to_oam_data(data);
            } else if reg == 0x2005 {
                self.ppu.write_to_scroll(data);
            } else if reg == 0x2006 {
                self.ppu.write_to_ppu_addr(data);
            } else {
                self.ppu.write_to_data(data);
            }
        } else if addr == 0x4014 {
            let hi: u16 = (data as u16) * 256;
            let mut buffer: Vec<u8> = Vec::new();
            let mut i: usize = 0;
            while i < 256
                invariant
                    i <= 256,
                    self@ == dma_bus(old(self)@, data, i as int),
                    self@.wf(),
                    buffer@.len() == i,
                    hi == data * 256,
                    forall|j: int| 0 <= j < i ==> buffer@[j] == bus_peek(
                        dma_bus(old(self)@, data, j),
                        dma_addr(data, j),
                    ),
                decreases 256 - i,
            {
                let byte: u8 = self.mem_read(hi + i as u16);
                buffer.push(byte);
                i = i + 1;
            }
            proof {
                assert(buffer@ =~= dma_block(old(self)@, data));
            }
            self.ppu.write_oam_dma(&buffer);
            proof {
                assert(final(self)@ == bus_after_dma(old(self)@, data));
            }
        } else if addr == 0x4016 {
            self.joypad1.write(data);
        } else if addr >= 0x8000 {
            // cartridge ROM is read-only: the write is illegal
            self.fault = true;
        } else {
            // APU and IO range, second controller, open range: the write is
            // ignored
        }
    }

    fn mem_read_u16(&mut self, pos: u16) -> (r: u16)
        ensures
            r == read16_val(old(self)@, pos),
            final(self)@ == read16_next(old(self)@, pos),
    {
        let lo: u8 = self.mem_read(pos);
        let hi: u8 = self.mem_read(pos.wrapping_add(1));
        (hi as u16) * 256 + lo as u16
    }

    fn mem_write_u16(&mut self, pos: u16, data: u16)
        ensures
            final(self)@ == write16_next(old(self)@, pos, data),
    {
        let hi: u8 = (data / 256) as u8;
        let lo: u8 = (data % 256) as u8;
        self.mem_write(pos, lo);
        self.mem_write(pos.wrapping_add(1), hi);
    }
}

/// DMA source reads never touch the cycle counter.
pub broadcast proof fn lemma_dma_bus_cycles(b: BusView, page: u8, n: int)
    ensures
        (#[trigger] dma_bus(b, page, n)).cycles == b.cycles,
    decreases n,
{
    if n > 0 {
        lemma_dma_bus_cycles(b, page, n - 1);
    }
}

/// RAM is mirrored across `[0, 0x2000)`: the four 2 KiB images of an offset
/// below 0x800 read the same byte.
pub proof fn lemma_ram_mirroring(b: BusView, a: u16)
    requires
        a < 0x800,
    ensures
        bus_peek(b, a) == bus_peek(b, (a + 0x800) as u16),
        bus_peek(b, a) == bus_peek(b, (a + 0x1000) as u16),
        bus_peek(b, a) == bus_peek(b, (a + 0x1800) as u16),
{
    assert(a % 0x800 == a) by (nonlinear_arith)
        requires 0 <= a < 0x800;
    assert((a + 0x800) % 0x800 == a) by (nonlinear_arith)
        requires 0 <= a < 0x800;
    assert((a + 0x1000) % 0x800 == a) by (nonlinear_arith)
        requires 0 <= a < 0x800;
    assert((a + 0x1800) % 0x800 == a) by (nonlinear_arith)
        requires 0 <= a < 0x800;
}

/// Round trip: a write to RAM is read back unchanged through any of its
/// mirrors.
pub proof fn lemma_ram_round_trip(b: BusView, a: u16, v: u8)
    requires
        b.wf(),
        a < 0x2000,
    ensures
        bus_peek(bus_after_write(b, a, v), a) == v,
{
    assert(0 <= a % 0x800 < 0x800) by (nonlinear_arith);
}

/// Charging `n` cycles advances the PPU by exactly `3 n` dots (stated away
/// from the saturation point of the 64-bit dot counter).
pub proof fn lemma_tick_advances_dots(b: BusView, n: u8)
    requires
        b.ppu.dots + 3 * n <= u64::MAX,
    ensures
        bus_after_tick(b, n).ppu.dots == b.ppu.dots + 3 * n,
{
    crate::ppu::lemma_norm_dots(
        PpuView {
            cycle: (b.ppu.cycle + (3 * n) as u16) as u32,
            dots: sat_add64(b.ppu.dots, (3 * n) as u64),
            ..b.ppu
        },
    );
}

} // verus!

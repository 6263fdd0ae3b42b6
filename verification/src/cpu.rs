//! The 6502-family CPU: registers, flags, stack, addressing modes, the
//! documented and undocumented instruction set, interrupt entry, and the
//! fetch-decode-execute step.
//!
//! Every instruction's effect is stated over the machine view: the operand
//! is resolved by `resolve_operand` (threading the bus state through each
//! fetch, since reads can have side effects), and each handler proves it
//! realises its spec-level transition exactly.

use vstd::prelude::*;
use crate::bus::{Bus, BusView, bus_peek, bus_after_read, bus_after_write, bus_after_tick, read16_val, read16_next, write16_next, ram_index, lemma_dma_bus_cycles};
use crate::interrupt::{Interrupt, nmi_descriptor};
use crate::ppu::PpuView;
use crate::opcodes::{OpCode, spec_opcode, opcode_lookup};

verus! {

broadcast use lemma_dma_bus_cycles;

/// What one fetch-decode-execute step reports: whether the fetched opcode
/// was BRK, which ends the run loop.
#[derive(Clone, Copy, PartialEq, Eq, Structural, Debug)]
pub enum StepOutcome {
    Continue,
    Break,
}


// ---------------------------------------------------------------------------
// Which dispatcher executes which opcode
// ---------------------------------------------------------------------------

/// Loads, stores, transfers, flag writes, stack operations and NOP.
pub open spec fn transfer_op(code: u8) -> bool {
    ||| code == 0xa9
    ||| code == 0xa5
    ||| code == 0xb5
    ||| code == 0xad
    ||| code == 0xbd
    ||| code == 0xb9
    ||| code == 0xa1
    ||| code == 0xb1
    ||| code == 0xa2
    ||| code == 0xa6
    ||| code == 0xb6
    ||| code == 0xae
    ||| code == 0xbe
    ||| code == 0xa0
    ||| code == 0xa4
    ||| code == 0xb4
    ||| code == 0xac
    ||| code == 0xbc
    ||| code == 0x85
    ||| code == 0x95
    ||| code == 0x8d
    ||| code == 0x9d
    ||| code == 0x99
    ||| code == 0x81
    ||| code == 0x91
    ||| code == 0x86
    ||| code == 0x96
    ||| code == 0x8e
    ||| code == 0x84
    ||| code == 0x94
    ||| code == 0x8c
    ||| code == 0xaa
    ||| code == 0xa8
    ||| code == 0xba
    ||| code == 0x8a
    ||| code == 0x9a
    ||| code == 0x98
    ||| code == 0xd8
    ||| code == 0x58
    ||| code == 0xb8
    ||| code == 0x18
    ||| code == 0x38
    ||| code == 0x78
    ||| code == 0xf8
    ||| code == 0x48
    ||| code == 0x68
    ||| code == 0x08
    ||| code == 0x28
    ||| code == 0xea
}

/// Arithmetic, logic, shifts, increments, compares, BIT, branches and jumps.
pub open spec fn alu_op(code: u8) -> bool {
    ||| code == 0x69
    ||| code == 0x65
    ||| code == 0x75
    ||| code == 0x6d
    ||| code == 0x7d
    ||| code == 0x79
    ||| code == 0x61
    ||| code == 0x71
    ||| code == 0xe9
    ||| code == 0xe5
    ||| code == 0xf5
    ||| code == 0xed
    ||| code == 0xfd
    ||| code == 0xf9
    ||| code == 0xe1
    ||| code == 0xf1
    ||| code == 0x29
    ||| code == 0x25
    ||| code == 0x35
    ||| code == 0x2d
    ||| code == 0x3d
    ||| code == 0x39
    ||| code == 0x21
    ||| code == 0x31
    ||| code == 0x49
    ||| code == 0x45
    ||| code == 0x55
    ||| code == 0x4d
    ||| code == 0x5d
    ||| code == 0x59
    ||| code == 0x41
    ||| code == 0x51
    ||| code == 0x09
    ||| code == 0x05
    ||| code == 0x15
    ||| code == 0x0d
    ||| code == 0x1d
    ||| code == 0x19
    ||| code == 0x01
    ||| code == 0x11
    ||| code == 0xc9
    ||| code == 0xc5
    ||| code == 0xd5
    ||| code == 0xcd
    ||| code == 0xdd
    ||| code == 0xd9
    ||| code == 0xc1
    ||| code == 0xd1
    ||| code == 0xc0
    ||| code == 0xc4
    ||| code == 0xcc
    ||| code == 0xe0
    ||| code == 0xe4
    ||| code == 0xec
}

/// Shifts, rotates, increments, decrements and BIT.
pub open spec fn shift_step_op(code: u8) -> bool {
    ||| code == 0x4a
    ||| code == 0x46
    ||| code == 0x56
    ||| code == 0x4e
    ||| code == 0x5e
    ||| code == 0x0a
    ||| code == 0x06
    ||| code == 0x16
    ||| code == 0x0e
    ||| code == 0x1e
    ||| code == 0x2a
    ||| code == 0x26
    ||| code == 0x36
    ||| code == 0x2e
    ||| code == 0x3e
    ||| code == 0x6a
    ||| code == 0x66
    ||| code == 0x76
    ||| code == 0x6e
    ||| code == 0x7e
    ||| code == 0xe6
    ||| code == 0xf6
    ||| code == 0xee
    ||| code == 0xfe
    ||| code == 0xe8
    ||| code == 0xc8
    ||| code == 0xc6
    ||| code == 0xd6
    ||| code == 0xce
    ||| code == 0xde
    ||| code == 0xca
    ||| code == 0x88
    ||| code == 0x24
    ||| code == 0x2c
}

/// Jumps, calls, returns and branches.
pub open spec fn flow_op(code: u8) -> bool {
    ||| code == 0x4c
    ||| code == 0x6c
    ||| code == 0x20
    ||| code == 0x60
    ||| code == 0x40
    ||| code == 0xd0
    ||| code == 0x70
    ||| code == 0x50
    ||| code == 0x10
    ||| code == 0x30
    ||| code == 0xf0
    ||| code == 0xb0
    ||| code == 0x90
}

/// Multi-byte NOPs and the undocumented load, store, decrement, increment
/// and left-shift combinations.
pub open spec fn undoc_rmw_op(code: u8) -> bool {
    ||| code == 0x04
    ||| code == 0x44
    ||| code == 0x64
    ||| code == 0x14
    ||| code == 0x34
    ||| code == 0x54
    ||| code == 0x74
    ||| code == 0xd4
    ||| code == 0xf4
    ||| code == 0x0c
    ||| code == 0x1c
    ||| code == 0x3c
    ||| code == 0x5c
    ||| code == 0x7c
    ||| code == 0xdc
    ||| code == 0xfc
    ||| code == 0xa7
    ||| code == 0xb7
    ||| code == 0xaf
    ||| code == 0xbf
    ||| code == 0xa3
    ||| code == 0xb3
    ||| code == 0x87
    ||| code == 0x97
    ||| code == 0x8f
    ||| code == 0x83
    ||| code == 0xeb
    ||| code == 0xc7
    ||| code == 0xd7
    ||| code == 0xcf
    ||| code == 0xdf
    ||| code == 0xdb
    ||| code == 0xd3
    ||| code == 0xc3
    ||| code == 0xe7
    ||| code == 0xf7
    ||| code == 0xef
    ||| code == 0xff
    ||| code == 0xfb
    ||| code == 0xe3
    ||| code == 0xf3
    ||| code == 0x07
    ||| code == 0x17
    ||| code == 0x0f
    ||| code == 0x1f
    ||| code == 0x1b
    ||| code == 0x03
    ||| code == 0x13
}

/// The undocumented rotate and shift combinations and the immediate-mode
/// undocumented arithmetic.
pub open spec fn undoc_imm_op(code: u8) -> bool {
    ||| code == 0x27
    ||| code == 0x37
    ||| code == 0x2f
    ||| code == 0x3f
    ||| code == 0x3b
    ||| code == 0x33
    ||| code == 0x23
    ||| code == 0x47
    ||| code == 0x57
    ||| code == 0x4f
    ||| code == 0x5f
    ||| code == 0x5b
    ||| code == 0x43
    ||| code == 0x53
    ||| code == 0x67
    ||| code == 0x77
    ||| code == 0x6f
    ||| code == 0x7f
    ||| code == 0x7b
    ||| code == 0x63
    ||| code == 0x73
    ||| code == 0xcb
    ||| code == 0x6b
    ||| code == 0x0b
    ||| code == 0x2b
    ||| code == 0x4b
}

/// The unstable immediate loads.
pub open spec fn unstable_load_op(code: u8) -> bool {
    ||| code == 0xab
    ||| code == 0x8b
}

/// The address-high stores.
pub open spec fn high_store_op(code: u8) -> bool {
    ||| code == 0x9b
    ||| code == 0xbb
    ||| code == 0x93
    ||| code == 0x9f
    ||| code == 0x9e
    ||| code == 0x9c
}

/// The opcodes whose handlers write the program counter directly: jumps,
/// subroutine calls and returns, the branches, and BRK.
pub open spec fn spec_writes_pc(code: u8) -> bool {
    ||| code == 0x00
    ||| code == 0x4c
    ||| code == 0x6c
    ||| code == 0x20
    ||| code == 0x60
    ||| code == 0x40
    ||| code == 0x10
    ||| code == 0x30
    ||| code == 0x50
    ||| code == 0x70
    ||| code == 0x90
    ||| code == 0xb0
    ||| code == 0xd0
    ||| code == 0xf0
}

/// How an instruction names its operand.
#[allow(non_camel_case_types)]
#[derive(Clone, Copy, Debug)]
pub enum AddressingMode {
    Immediate,
    ZeroPage,
    ZeroPage_X,
    ZeroPage_Y,
    Absolute,
    Absolute_X,
    Absolute_Y,
    Indirect_X,
    Indirect_Y,
    NoneAddressing,
}

/// Byte-granular memory access, as both the bus and the CPU (which forwards
/// to its bus) expose it. Word access is little-endian; the high byte of a
/// word at 0xffff wraps to 0x0000.
pub trait Mem {
    /// Validity demanded of the state before any access.
    spec fn mem_wf(&self) -> bool;

    fn mem_read(&mut self, addr: u16) -> (r: u8)
        requires
            old(self).mem_wf(),
        ensures
            final(self).mem_wf(),
    ;

    fn mem_write(&mut self, addr: u16, data: u8)
        requires
            old(self).mem_wf(),
        ensures
            final(self).mem_wf(),
    ;

    fn mem_read_u16(&mut self, pos: u16) -> (r: u16)
        requires
            old(self).mem_wf(),
        ensures
            final(self).mem_wf(),
    ;

    fn mem_write_u16(&mut self, pos: u16, data: u16)
        requires
            old(self).mem_wf(),
        ensures
            final(self).mem_wf(),
    ;
}

/// Abstract state of the CPU together with its bus.
pub struct CpuView {
    pub a: u8,
    pub x: u8,
    pub y: u8,
    pub status: u8,
    pub sp: u8,
    pub pc: u16,
    pub bus: BusView,
}

pub struct CPU {
    pub register_a: u8,
    pub register_x: u8,
    pub register_y: u8,
    pub status: u8,
    pub program_counter: u16,
    pub stack_pointer: u8,
    pub bus: Bus,
}

impl View for CPU {
    type V = CpuView;

    open spec fn view(&self) -> CpuView {
        CpuView {
            a: self.register_a,
            x: self.register_x,
            y: self.register_y,
            status: self.status,
            sp: self.stack_pointer,
            pc: self.program_counter,
            bus: self.bus@,
        }
    }
}

impl CpuView {
    /// Validity: the bus is well formed and the unused status bit (bit 5)
    /// reads 1, as it does in every reachable state.
    pub open spec fn wf(self) -> bool {
        &&& self.bus.wf()
        &&& self.status & 0x20 == 0x20
    }
}

// ---------------------------------------------------------------------------
// Wrap-around arithmetic
// ---------------------------------------------------------------------------

pub open spec fn wrap_add8(a: u8, b: u8) -> u8 {
    ((a + b) % 256) as u8
}

pub open spec fn wrap_sub8(a: u8, b: u8) -> u8 {
    ((a + 256 - b) % 256) as u8
}

pub open spec fn wrap_add16(a: u16, b: u16) -> u16 {
    ((a + b) % 0x10000) as u16
}

pub(crate) fn wadd8(a: u8, b: u8) -> (r: u8)
    ensures
        r == wrap_add8(a, b),
{
    ((a as u16 + b as u16) % 256) as u8
}

pub(crate) fn wsub8(a: u8, b: u8) -> (r: u8)
    ensures
        r == wrap_sub8(a, b),
{
    ((a as u16 + 256 - b as u16) % 256) as u8
}

pub(crate) fn wadd16(a: u16, b: u16) -> (r: u16)
    ensures
        r == wrap_add16(a, b),
{
    ((a as u32 + b as u32) % 0x10000) as u16
}

/// Two addresses sit on different 256-byte pages.
pub open spec fn page_crossed(a: u16, b: u16) -> bool {
    a / 256 != b / 256
}

/// Stepping the program counter past the opcode and then past the operand
/// bytes is one wrap-around addition of the instruction's length.
proof fn lemma_wrap_chain(pc: u16, len: u8)
    requires
        1 <= len <= 3,
    ensures
        wrap_add16(wrap_add16(pc, 1), (len - 1) as u16) == wrap_add16(pc, len as u16),
{
    assert(forall|x: int| 0 <= x < 0x10000 ==> #[trigger] (x % 0x10000) == x) by (nonlinear_arith);
    assert(forall|x: int| 0x10000 <= x < 0x20000 ==> #[trigger] (x % 0x10000) == x - 0x10000)
        by (nonlinear_arith);
}

// ---------------------------------------------------------------------------
// Status flags
// ---------------------------------------------------------------------------

pub open spec fn upd_z(s: u8, v: u8) -> u8 {
    if v == 0 {
        s | 0x02
    } else {
        s & 0xfd
    }
}

pub open spec fn upd_n(s: u8, v: u8) -> u8 {
    if v >= 0x80 {
        s | 0x80
    } else {
        s & 0x7f
    }
}

/// Zero and negative flags set from a result, as every ALU operation does.
pub open spec fn znup(s: u8, v: u8) -> u8 {
    upd_n(upd_z(s, v), v)
}

pub open spec fn upd_c(s: u8, on: bool) -> u8 {
    if on {
        s | 0x01
    } else {
        s & 0xfe
    }
}

pub open spec fn upd_v(s: u8, on: bool) -> u8 {
    if on {
        s | 0x40
    } else {
        s & 0xbf
    }
}

/// The masking operations applied to the status register all leave bit 5
/// (the always-set bit) alone, and the pull path forces it to 1.
proof fn lemma_status_bit5(s: u8)
    ensures
        (s | 0x01) & 0x20 == s & 0x20,
        (s & 0xfe) & 0x20 == s & 0x20,
        (s | 0x02) & 0x20 == s & 0x20,
        (s & 0xfd) & 0x20 == s & 0x20,
        (s | 0x04) & 0x20 == s & 0x20,
        (s & 0xfb) & 0x20 == s & 0x20,
        (s | 0x08) & 0x20 == s & 0x20,
        (s & 0xf7) & 0x20 == s & 0x20,
        (s | 0x40) & 0x20 == s & 0x20,
        (s & 0xbf) & 0x20 == s & 0x20,
        (s | 0x80) & 0x20 == s & 0x20,
        (s & 0x7f) & 0x20 == s & 0x20,
        ((s & 0xef) | 0x20) & 0x20 == 0x20,
        (s | 0x30) & 0x20 == 0x20,
{
    assert((s | 0x01) & 0x20 == s & 0x20 && (s & 0xfe) & 0x20 == s & 0x20 && (s | 0x02) & 0x20
        == s & 0x20 && (s & 0xfd) & 0x20 == s & 0x20 && (s | 0x04) & 0x20 == s & 0x20 && (s
        & 0xfb) & 0x20 == s & 0x20 && (s | 0x08) & 0x20 == s & 0x20 && (s & 0xf7) & 0x20 == s
        & 0x20 && (s | 0x40) & 0x20 == s & 0x20 && (s & 0xbf) & 0x20 == s & 0x20 && (s | 0x80)
        & 0x20 == s & 0x20 && (s & 0x7f) & 0x20 == s & 0x20 && ((s & 0xef) | 0x20) & 0x20
        == 0x20 && (s | 0x30) & 0x20 == 0x20) by (bit_vector);
}

proof fn lemma_znup_bit5(s: u8, v: u8)
    ensures
        znup(s, v) & 0x20 == s & 0x20,
{
    lemma_status_bit5(s);
    lemma_status_bit5(upd_z(s, v));
}

// ---------------------------------------------------------------------------
// Operand resolution
// ---------------------------------------------------------------------------

/// Outcome of resolving an addressing mode: the effective address, whether
/// an indexed computation crossed a page, and the bus state after the
/// operand-pointer fetches.
pub struct Resolved {
    pub ea: u16,
    pub crossed: bool,
    pub bus: BusView,
}

/// Effective address computed by a mode relative to `base` (the byte after
/// the opcode). Immediate and implied modes do not come here.
pub open spec fn resolve_mode(c: CpuView, mode: AddressingMode, base: u16) -> Resolved {
    match mode {
        AddressingMode::ZeroPage => Resolved {
            ea: bus_peek(c.bus, base) as u16,
            crossed: false,
            bus: bus_after_read(c.bus, base),
        },
        AddressingMode::ZeroPage_X => Resolved {
            ea: wrap_add8(bus_peek(c.bus, base), c.x) as u16,
            crossed: false,
            bus: bus_after_read(c.bus, base),
        },
        AddressingMode::ZeroPage_Y => Resolved {
            ea: wrap_add8(bus_peek(c.bus, base), c.y) as u16,
            crossed: false,
            bus: bus_after_read(c.bus, base),
        },
        AddressingMode::Absolute => Resolved {
            ea: read16_val(c.bus, base),
            crossed: false,
            bus: read16_next(c.bus, base),
        },
        AddressingMode::Absolute_X => {
            let w = read16_val(c.bus, base);
            let ea = wrap_add16(w, c.x as u16);
            Resolved { ea, crossed: page_crossed(w, ea), bus: read16_next(c.bus, base) }
        },
        AddressingMode::Absolute_Y => {
            let w = read16_val(c.bus, base);
            let ea = wrap_add16(w, c.y as u16);
            Resolved { ea, crossed: page_crossed(w, ea), bus: read16_next(c.bus, base) }
        },
        AddressingMode::Indirect_X => {
            let ptr = wrap_add8(bus_peek(c.bus, base), c.x);
            let b1 = bus_after_read(c.bus, base);
            let lo = bus_peek(b1, ptr as u16);
            let b2 = bus_after_read(b1, ptr as u16);
            let hi = bus_peek(b2, wrap_add8(ptr, 1) as u16);
            let b3 = bus_after_read(b2, wrap_add8(ptr, 1) as u16);
            Resolved { ea: (hi * 256 + lo) as u16, crossed: false, bus: b3 }
        },
        AddressingMode::Indirect_Y => {
            let ptr = bus_peek(c.bus, base);
            let b1 = bus_after_read(c.bus, base);
            let lo = bus_peek(b1, ptr as u16);
            let b2 = bus_after_read(b1, ptr as u16);
            let hi = bus_peek(b2, wrap_add8(ptr, 1) as u16);
            let b3 = bus_after_read(b2, wrap_add8(ptr, 1) as u16);
            let w = (hi * 256 + lo) as u16;
            let ea = wrap_add16(w, c.y as u16);
            Resolved { ea, crossed: page_crossed(ea, w), bus: b3 }
        },
        _ => Resolved { ea: 0, crossed: false, bus: c.bus },
    }
}

/// Where an instruction's operand lives: immediates sit at the program
/// counter itself, every other mode resolves relative to it.
pub open spec fn resolve_operand(c: CpuView, mode: AddressingMode) -> Resolved {
    if mode is Immediate {
        Resolved { ea: c.pc, crossed: false, bus: c.bus }
    } else {
        resolve_mode(c, mode, c.pc)
    }
}

pub open spec fn operand_crossed(c: CpuView, mode: AddressingMode) -> bool {
    resolve_operand(c, mode).crossed
}

/// The operand byte an instruction reads.
pub open spec fn operand_val(c: CpuView, mode: AddressingMode) -> u8 {
    let r = resolve_operand(c, mode);
    bus_peek(r.bus, r.ea)
}

/// Bus state after resolving the operand and reading it.
pub open spec fn bus_after_operand_read(c: CpuView, mode: AddressingMode) -> BusView {
    let r = resolve_operand(c, mode);
    bus_after_read(r.bus, r.ea)
}

/// Bus state after a read-modify-write instruction stores `v` back.
pub open spec fn bus_after_rmw(c: CpuView, mode: AddressingMode, v: u8) -> BusView {
    let r = resolve_operand(c, mode);
    bus_after_write(bus_after_read(r.bus, r.ea), r.ea, v)
}

/// One penalty cycle when an indexed read crossed a page.
pub open spec fn maybe_tick(b: BusView, crossed: bool) -> BusView {
    if crossed {
        bus_after_tick(b, 1)
    } else {
        b
    }
}

/// Bus state after a store instruction: resolve, then write the register.
pub open spec fn bus_after_store(c: CpuView, mode: AddressingMode, v: u8) -> BusView {
    let r = resolve_operand(c, mode);
    bus_after_write(r.bus, r.ea, v)
}

// ---------------------------------------------------------------------------
// Arithmetic and shift results
// ---------------------------------------------------------------------------

/// Sum fed into the accumulator by ADC: A + M + carry-in, truncated.
pub open spec fn adc_result(a: u8, m: u8, c: u8) -> u8 {
    ((a + m + c) % 256) as u8
}

pub open spec fn adc_value(s: u8, a: u8, m: u8) -> u8 {
    adc_result(a, m, s & 1)
}

/// Status after ADC: carry out of bit 7, signed overflow when the operand
/// and the old accumulator share a sign the result does not, then Z and N.
pub open spec fn adc_flags(s: u8, a: u8, m: u8) -> u8 {
    let c = s & 1;
    let r = adc_result(a, m, c);
    let s1 = upd_c(s, a + m + c > 255);
    let s2 = upd_v(s1, (m ^ r) & (r ^ a) & 0x80 != 0);
    znup(s2, r)
}

/// Status after a compare: carry when the register is at least the operand,
/// Z and N from the raw difference.
pub open spec fn compare_status(s: u8, reg: u8, m: u8) -> u8 {
    znup(upd_c(s, m <= reg), wrap_sub8(reg, m))
}

pub open spec fn asl_val(m: u8) -> u8 {
    ((m * 2) % 256) as u8
}

pub open spec fn lsr_val(m: u8) -> u8 {
    m / 2
}

pub open spec fn rol_val(m: u8, c: bool) -> u8 {
    (((m * 2) % 256) + if c { 1int } else { 0int }) as u8
}

pub open spec fn ror_val(m: u8, c: bool) -> u8 {
    (m / 2 + if c { 128int } else { 0int }) as u8
}

/// A branch offset is a signed byte added to the address after the operand.
pub open spec fn sign_extend(off: u8) -> u16 {
    if off < 0x80 {
        off as u16
    } else {
        (off + 0xff00) as u16
    }
}

pub open spec fn branch_target(pc: u16, off: u8) -> u16 {
    wrap_add16(wrap_add16(pc, 1), sign_extend(off))
}


// ---------------------------------------------------------------------------
// The machine's step, as one transition function
// ---------------------------------------------------------------------------

/// Interrupt entry: push the program counter (high byte first), push the
/// status with B cleared per the descriptor's mask, set interrupt-disable,
/// charge the entry cycles, and load the vector.
pub open spec fn spec_interrupt(c: CpuView, i: Interrupt) -> CpuView {
    let b1 = bus_after_write(c.bus, (0x100 + c.sp as u16) as u16, (c.pc / 256) as u8);
    let sp1 = wrap_sub8(c.sp, 1);
    let b2 = bus_after_write(b1, (0x100 + sp1 as u16) as u16, (c.pc % 256) as u8);
    let sp2 = wrap_sub8(sp1, 1);
    let flag = (c.status & 0xef) | i.b_flag_mask;
    let b3 = bus_after_write(b2, (0x100 + sp2 as u16) as u16, flag);
    let b4 = bus_after_tick(b3, i.cpu_cycles);
    CpuView {
        pc: read16_val(b4, i.vector_addr),
        sp: wrap_sub8(sp2, 1),
        status: c.status | 0x04,
        bus: read16_next(b4, i.vector_addr),
        ..c
    }
}

/// Polling the NMI latch always clears it; when it was set, the interrupt
/// entry runs before anything else.
pub open spec fn spec_service_nmi(c: CpuView) -> CpuView {
    let cleared = CpuView {
        bus: BusView { ppu: PpuView { nmi_interrupt: None, ..c.bus.ppu }, ..c.bus },
        ..c
    };
    if c.bus.ppu.nmi_interrupt is Some {
        spec_interrupt(cleared, nmi_descriptor())
    } else {
        cleared
    }
}

/// A branch: when taken it charges one cycle, reads the offset, charges one
/// more when the target leaves the page, and redirects the program counter.
pub open spec fn spec_branch(c: CpuView, cond: bool) -> CpuView {
    if !cond {
        c
    } else {
        let b1 = bus_after_tick(c.bus, 1);
        let off = bus_peek(b1, c.pc);
        let b2 = bus_after_read(b1, c.pc);
        let target = branch_target(c.pc, off);
        CpuView {
            pc: target,
            bus: (
                if page_crossed(wrap_add16(c.pc, 1), target) {
                    bus_after_tick(b2, 1)
                } else {
                    b2
                }
            ),
            ..c
        }
    }
}

/// `code` is a branch whose condition reads false under `status`: the
/// handler then leaves the whole state alone.
pub open spec fn spec_branch_not_taken(code: u8, status: u8) -> bool {
    ||| (code == 0xd0 && status & 0x02 != 0)
    ||| (code == 0xf0 && status & 0x02 == 0)
    ||| (code == 0x70 && status & 0x40 == 0)
    ||| (code == 0x50 && status & 0x40 != 0)
    ||| (code == 0x10 && status & 0x80 != 0)
    ||| (code == 0x30 && status & 0x80 == 0)
    ||| (code == 0xb0 && status & 0x01 == 0)
    ||| (code == 0x90 && status & 0x01 != 0)
}

/// What executing the already-fetched instruction `code` does to the state
/// `c` (the program counter already past the opcode byte). One arm per
/// instruction family, over the same transition specs the handlers prove;
/// the final arm covers the halt opcodes and the implied undocumented NOPs,
/// which do nothing.
pub open spec fn spec_dispatch(c: CpuView, code: u8) -> CpuView {
    let m = spec_opcode(code).mode;
    match code {
        // loads
        0xa9 | 0xa5 | 0xb5 | 0xad | 0xbd | 0xb9 | 0xa1 | 0xb1 => CpuView {
            a: operand_val(c, m),
            status: znup(c.status, operand_val(c, m)),
            bus: maybe_tick(bus_after_operand_read(c, m), operand_crossed(c, m)),
            ..c
        },
        0xa2 | 0xa6 | 0xb6 | 0xae | 0xbe => CpuView {
            x: operand_val(c, m),
            status: znup(c.status, operand_val(c, m)),
            bus: maybe_tick(bus_after_operand_read(c, m), operand_crossed(c, m)),
            ..c
        },
        0xa0 | 0xa4 | 0xb4 | 0xac | 0xbc => CpuView {
            y: operand_val(c, m),
            status: znup(c.status, operand_val(c, m)),
            bus: maybe_tick(bus_after_operand_read(c, m), operand_crossed(c, m)),
            ..c
        },
        // stores
        0x85 | 0x95 | 0x8d | 0x9d | 0x99 | 0x81 | 0x91 => CpuView {
            bus: bus_after_store(c, m, c.a),
            ..c
        },
        0x86 | 0x96 | 0x8e => CpuView { bus: bus_after_store(c, m, c.x), ..c },
        0x84 | 0x94 | 0x8c => CpuView { bus: bus_after_store(c, m, c.y), ..c },
        // transfers
        0xaa => CpuView { x: c.a, status: znup(c.status, c.a), ..c },
        0xa8 => CpuView { y: c.a, status: znup(c.status, c.a), ..c },
        0xba => CpuView { x: c.sp, status: znup(c.status, c.sp), ..c },
        0x8a => CpuView { a: c.x, status: znup(c.status, c.x), ..c },
        0x9a => CpuView { sp: c.x, ..c },
        0x98 => CpuView { a: c.y, status: znup(c.status, c.y), ..c },
        // flag writes
        0xd8 => CpuView { status: c.status & 0xf7, ..c },
        0x58 => CpuView { status: c.status & 0xfb, ..c },
        0xb8 => CpuView { status: upd_v(c.status, false), ..c },
        0x18 => CpuView { status: c.status & 0xfe, ..c },
        0x38 => CpuView { status: c.status | 0x01, ..c },
        0x78 => CpuView { status: c.status | 0x04, ..c },
        0xf8 => CpuView { status: c.status | 0x08, ..c },
        // stack
        0x48 => CpuView {
            sp: wrap_sub8(c.sp, 1),
            bus: bus_after_write(c.bus, (0x100 + c.sp as u16) as u16, c.a),
            ..c
        },
        0x68 => {
            let sp1 = wrap_add8(c.sp, 1);
            let v = bus_peek(c.bus, (0x100 + sp1 as u16) as u16);
            CpuView {
                a: v,
                status: znup(c.status, v),
                sp: sp1,
                bus: bus_after_read(c.bus, (0x100 + sp1 as u16) as u16),
                ..c
            }
        },
        0x08 => CpuView {
            sp: wrap_sub8(c.sp, 1),
            bus: bus_after_write(c.bus, (0x100 + c.sp as u16) as u16, c.status | 0x30),
            ..c
        },
        0x28 => {
            let sp1 = wrap_add8(c.sp, 1);
            let v = bus_peek(c.bus, (0x100 + sp1 as u16) as u16);
            CpuView {
                status: (v & 0xef) | 0x20,
                sp: sp1,
                bus: bus_after_read(c.bus, (0x100 + sp1 as u16) as u16),
                ..c
            }
        },
        // arithmetic
        0x69 | 0x65 | 0x75 | 0x6d | 0x7d | 0x79 | 0x61 | 0x71 => CpuView {
            a: adc_value(c.status, c.a, operand_val(c, m)),
            status: adc_flags(c.status, c.a, operand_val(c, m)),
            bus: maybe_tick(bus_after_operand_read(c, m), operand_crossed(c, m)),
            ..c
        },
        0xe9 | 0xe5 | 0xf5 | 0xed | 0xfd | 0xf9 | 0xe1 | 0xf1 | 0xeb => CpuView {
            a: adc_value(c.status, c.a, operand_val(c, m) ^ 0xff),
            status: adc_flags(c.status, c.a, operand_val(c, m) ^ 0xff),
            bus: maybe_tick(bus_after_operand_read(c, m), operand_crossed(c, m)),
            ..c
        },
        // logic
        0x29 | 0x25 | 0x35 | 0x2d | 0x3d | 0x39 | 0x21 | 0x31 => CpuView {
            a: operand_val(c, m) & c.a,
            status: znup(c.status, operand_val(c, m) & c.a),
            bus: maybe_tick(bus_after_operand_read(c, m), operand_crossed(c, m)),
            ..c
        },
        0x49 | 0x45 | 0x55 | 0x4d | 0x5d | 0x59 | 0x41 | 0x51 => CpuView {
            a: operand_val(c, m) ^ c.a,
            status: znup(c.status, operand_val(c, m) ^ c.a),
            bus: maybe_tick(bus_after_operand_read(c, m), operand_crossed(c, m)),
            ..c
        },
        0x09 | 0x05 | 0x15 | 0x0d | 0x1d | 0x19 | 0x01 | 0x11 => CpuView {
            a: operand_val(c, m) | c.a,
            status: znup(c.status, operand_val(c, m) | c.a),
            bus: maybe_tick(bus_after_operand_read(c, m), operand_crossed(c, m)),
            ..c
        },
        // shifts and rotates
        0x4a => CpuView {
            a: lsr_val(c.a),
            status: znup(upd_c(c.status, c.a & 1 == 1), lsr_val(c.a)),
            ..c
        },
        0x46 | 0x56 | 0x4e | 0x5e => {
            let d = operand_val(c, m);
            CpuView {
                status: znup(upd_c(c.status, d & 1 == 1), lsr_val(d)),
                bus: bus_after_rmw(c, m, lsr_val(d)),
                ..c
            }
        },
        0x0a => CpuView {
            a: asl_val(c.a),
            status: znup(upd_c(c.status, c.a >= 0x80), asl_val(c.a)),
            ..c
        },
        0x06 | 0x16 | 0x0e | 0x1e => {
            let d = operand_val(c, m);
            CpuView {
                status: znup(upd_c(c.status, d >= 0x80), asl_val(d)),
                bus: bus_after_rmw(c, m, asl_val(d)),
                ..c
            }
        },
        0x2a => {
            let v = rol_val(c.a, c.status & 1 == 1);
            CpuView { a: v, status: znup(upd_c(c.status, c.a >= 0x80), v), ..c }
        },
        0x26 | 0x36 | 0x2e | 0x3e => {
            let d = operand_val(c, m);
            let v = rol_val(d, c.status & 1 == 1);
            CpuView {
                status: znup(upd_c(c.status, d >= 0x80), v),
                bus: bus_after_rmw(c, m, v),
                ..c
            }
        },
        0x6a => {
            let v = ror_val(c.a, c.status & 1 == 1);
            CpuView { a: v, status: znup(upd_c(c.status, c.a & 1 == 1), v), ..c }
        },
        0x66 | 0x76 | 0x6e | 0x7e => {
            let d = operand_val(c, m);
            let v = ror_val(d, c.status & 1 == 1);
            CpuView {
                status: znup(upd_c(c.status, d & 1 == 1), v),
                bus: bus_after_rmw(c, m, v),
                ..c
            }
        },
        // increments and decrements
        0xe6 | 0xf6 | 0xee | 0xfe => CpuView {
            status: znup(c.status, wrap_add8(operand_val(c, m), 1)),
            bus: bus_after_rmw(c, m, wrap_add8(operand_val(c, m), 1)),
            ..c
        },
        0xe8 => CpuView { x: wrap_add8(c.x, 1), status: znup(c.status, wrap_add8(c.x, 1)), ..c },
        0xc8 => CpuView { y: wrap_add8(c.y, 1), status: znup(c.status, wrap_add8(c.y, 1)), ..c },
        0xc6 | 0xd6 | 0xce | 0xde => CpuView {
            status: znup(c.status, wrap_sub8(operand_val(c, m), 1)),
            bus: bus_after_rmw(c, m, wrap_sub8(operand_val(c, m), 1)),
            ..c
        },
        0xca => CpuView { x: wrap_sub8(c.x, 1), status: znup(c.status, wrap_sub8(c.x, 1)), ..c },
        0x88 => CpuView { y: wrap_sub8(c.y, 1), status: znup(c.status, wrap_sub8(c.y, 1)), ..c },
        // compares
        0xc9 | 0xc5 | 0xd5 | 0xcd | 0xdd | 0xd9 | 0xc1 | 0xd1 => CpuView {
            status: compare_status(c.status, c.a, operand_val(c, m)),
            bus: maybe_tick(bus_after_operand_read(c, m), operand_crossed(c, m)),
            ..c
        },
        0xc0 | 0xc4 | 0xcc => CpuView {
            status: compare_status(c.status, c.y, operand_val(c, m)),
            bus: maybe_tick(bus_after_operand_read(c, m), operand_crossed(c, m)),
            ..c
        },
        0xe0 | 0xe4 | 0xec => CpuView {
            status: compare_status(c.status, c.x, operand_val(c, m)),
            bus: maybe_tick(bus_after_operand_read(c, m), operand_crossed(c, m)),
            ..c
        },
        // jumps, calls and returns
        0x4c => CpuView { pc: read16_val(c.bus, c.pc), bus: read16_next(c.bus, c.pc), ..c },
        0x6c => {
            let w = read16_val(c.bus, c.pc);
            let b1 = read16_next(c.bus, c.pc);
            let target = (
                if w % 256 == 0xff {
                    (bus_peek(bus_after_read(b1, w), ((w / 256) * 256) as u16) * 256 + bus_peek(
                        b1,
                        w,
                    )) as u16
                } else {
                    read16_val(b1, w)
                }
            );
            let b2 = (
                if w % 256 == 0xff {
                    bus_after_read(bus_after_read(b1, w), ((w / 256) * 256) as u16)
                } else {
                    read16_next(b1, w)
                }
            );
            CpuView { pc: target, bus: b2, ..c }
        },
        0x20 => {
            let ret = wrap_add16(c.pc, 1);
            let b1 = bus_after_write(c.bus, (0x100 + c.sp as u16) as u16, (ret / 256) as u8);
            let sp1 = wrap_sub8(c.sp, 1);
            let b2 = bus_after_write(b1, (0x100 + sp1 as u16) as u16, (ret % 256) as u8);
            CpuView {
                pc: read16_val(b2, c.pc),
                sp: wrap_sub8(sp1, 1),
                bus: read16_next(b2, c.pc),
                ..c
            }
        },
        0x60 => {
            let sp1 = wrap_add8(c.sp, 1);
            let lo = bus_peek(c.bus, (0x100 + sp1 as u16) as u16);
            let b1 = bus_after_read(c.bus, (0x100 + sp1 as u16) as u16);
            let sp2 = wrap_add8(sp1, 1);
            let hi = bus_peek(b1, (0x100 + sp2 as u16) as u16);
            CpuView {
                pc: wrap_add16((hi * 256 + lo) as u16, 1),
                sp: sp2,
                bus: bus_after_read(b1, (0x100 + sp2 as u16) as u16),
                ..c
            }
        },
        0x40 => {
            let sp1 = wrap_add8(c.sp, 1);
            let flags = bus_peek(c.bus, (0x100 + sp1 as u16) as u16);
            let b1 = bus_after_read(c.bus, (0x100 + sp1 as u16) as u16);
            let sp2 = wrap_add8(sp1, 1);
            let lo = bus_peek(b1, (0x100 + sp2 as u16) as u16);
            let b2 = bus_after_read(b1, (0x100 + sp2 as u16) as u16);
            let sp3 = wrap_add8(sp2, 1);
            let hi = bus_peek(b2, (0x100 + sp3 as u16) as u16);
            CpuView {
                pc: (hi * 256 + lo) as u16,
                sp: sp3,
                status: (flags & 0xef) | 0x20,
                bus: bus_after_read(b2, (0x100 + sp3 as u16) as u16),
                ..c
            }
        },
        // branches
        0xd0 => spec_branch(c, c.status & 0x02 == 0),
        0xf0 => spec_branch(c, c.status & 0x02 != 0),
        0x70 => spec_branch(c, c.status & 0x40 != 0),
        0x50 => spec_branch(c, c.status & 0x40 == 0),
        0x10 => spec_branch(c, c.status & 0x80 == 0),
        0x30 => spec_branch(c, c.status & 0x80 != 0),
        0xb0 => spec_branch(c, c.status & 0x01 != 0),
        0x90 => spec_branch(c, c.status & 0x01 == 0),
        // BIT
        0x24 | 0x2c => {
            let d = operand_val(c, m);
            CpuView {
                status: upd_z(upd_n(upd_v(c.status, d & 0x40 != 0), d), c.a & d),
                bus: bus_after_operand_read(c, m),
                ..c
            }
        },
        // multi-byte NOPs: address computed and discarded
        0x04 | 0x44 | 0x64 | 0x14 | 0x34 | 0x54 | 0x74 | 0xd4 | 0xf4 | 0x0c | 0x1c | 0x3c | 0x5c
            | 0x7c | 0xdc | 0xfc => CpuView {
            bus: maybe_tick(resolve_operand(c, m).bus, operand_crossed(c, m)),
            ..c
        },
        // undocumented read-modify-write combinations
        0xa7 | 0xb7 | 0xaf | 0xbf | 0xa3 | 0xb3 => {
            let v = operand_val(c, m);
            CpuView {
                a: v,
                x: v,
                status: znup(c.status, v),
                bus: bus_after_operand_read(c, m),
                ..c
            }
        },
        0x87 | 0x97 | 0x8f | 0x83 => CpuView { bus: bus_after_store(c, m, c.a & c.x), ..c },
        0xc7 | 0xd7 | 0xcf | 0xdf | 0xdb | 0xd3 | 0xc3 => {
            let v = wrap_sub8(operand_val(c, m), 1);
            CpuView {
                status: compare_status(znup(c.status, v), c.a, v),
                bus: bus_after_rmw(c, m, v),
                ..c
            }
        },
        0xe7 | 0xf7 | 0xef | 0xff | 0xfb | 0xe3 | 0xf3 => {
            let v = wrap_add8(operand_val(c, m), 1);
            let s1 = znup(c.status, v);
            CpuView {
                a: adc_value(s1, c.a, v ^ 0xff),
                status: adc_flags(s1, c.a, v ^ 0xff),
                bus: bus_after_rmw(c, m, v),
                ..c
            }
        },
        0x07 | 0x17 | 0x0f | 0x1f | 0x1b | 0x03 | 0x13 => {
            let d = operand_val(c, m);
            let v = asl_val(d);
            let s1 = znup(upd_c(c.status, d >= 0x80), v);
            CpuView { a: v | c.a, status: znup(s1, v | c.a), bus: bus_after_rmw(c, m, v), ..c }
        },
        0x27 | 0x37 | 0x2f | 0x3f | 0x3b | 0x33 | 0x23 => {
            let d = operand_val(c, m);
            let v = rol_val(d, c.status & 1 == 1);
            let s1 = znup(upd_c(c.status, d >= 0x80), v);
            CpuView { a: v & c.a, status: znup(s1, v & c.a), bus: bus_after_rmw(c, m, v), ..c }
        },
        0x47 | 0x57 | 0x4f | 0x5f | 0x5b | 0x43 | 0x53 => {
            let d = operand_val(c, m);
            let v = lsr_val(d);
            let s1 = znup(upd_c(c.status, d & 1 == 1), v);
            CpuView { a: v ^ c.a, status: znup(s1, v ^ c.a), bus: bus_after_rmw(c, m, v), ..c }
        },
        0x67 | 0x77 | 0x6f | 0x7f | 0x7b | 0x63 | 0x73 => {
            let d = operand_val(c, m);
            let v = ror_val(d, c.status & 1 == 1);
            let s1 = znup(upd_c(c.status, d & 1 == 1), v);
            CpuView {
                a: adc_value(s1, c.a, v),
                status: adc_flags(s1, c.a, v),
                bus: bus_after_rmw(c, m, v),
                ..c
            }
        },
        // immediate-mode undocumented operations
        0xcb => {
            let d = operand_val(c, m);
            let xa = c.x & c.a;
            CpuView {
                x: wrap_sub8(xa, d),
                status: compare_status(c.status, xa, d),
                bus: bus_after_operand_read(c, m),
                ..c
            }
        },
        0x6b => {
            let d = operand_val(c, m);
            let a1 = d & c.a;
            let s1 = znup(c.status, a1);
            let v = ror_val(a1, s1 & 1 == 1);
            let s2 = znup(upd_c(s1, a1 & 1 == 1), v);
            let b5 = (v / 32) % 2;
            let b6 = (v / 64) % 2;
            CpuView {
                a: v,
                status: znup(upd_v(upd_c(s2, b6 == 1), b5 ^ b6 == 1), v),
                bus: bus_after_operand_read(c, m),
                ..c
            }
        },
        0x0b | 0x2b => {
            let a1 = operand_val(c, m) & c.a;
            CpuView {
                a: a1,
                status: upd_c(znup(c.status, a1), a1 >= 0x80),
                bus: bus_after_operand_read(c, m),
                ..c
            }
        },
        0x4b => {
            let a1 = operand_val(c, m) & c.a;
            let s1 = znup(c.status, a1);
            CpuView {
                a: lsr_val(a1),
                status: znup(upd_c(s1, a1 & 1 == 1), lsr_val(a1)),
                bus: bus_after_operand_read(c, m),
                ..c
            }
        },
        0xab => {
            let v = operand_val(c, m);
            CpuView {
                a: v,
                x: v,
                status: znup(znup(c.status, v), v),
                bus: maybe_tick(bus_after_operand_read(c, m), operand_crossed(c, m)),
                ..c
            }
        },
        0x8b => {
            let c1 = CpuView { a: c.x, status: znup(c.status, c.x), ..c };
            let d = operand_val(c1, m);
            CpuView {
                a: d & c.x,
                status: znup(c1.status, d & c.x),
                bus: bus_after_operand_read(c1, m),
                ..c1
            }
        },
        // unstable stores
        0x9b => {
            let sp1 = c.a & c.x;
            let w = read16_val(c.bus, c.pc);
            let b1 = read16_next(c.bus, c.pc);
            let t = wrap_add16(w, c.y as u16);
            let v = wrap_add8((t / 256) as u8, 1) & sp1;
            CpuView { sp: sp1, bus: bus_after_write(b1, t, v), ..c }
        },
        0xbb => {
            let v = operand_val(c, m) & c.sp;
            CpuView {
                a: v,
                x: v,
                sp: v,
                status: znup(c.status, v),
                bus: maybe_tick(bus_after_operand_read(c, m), operand_crossed(c, m)),
                ..c
            }
        },
        0x93 => {
            let pos = bus_peek(c.bus, c.pc);
            let b1 = bus_after_read(c.bus, c.pc);
            let w = read16_val(b1, pos as u16);
            let b2 = read16_next(b1, pos as u16);
            let t = wrap_add16(w, c.y as u16);
            let v = c.a & c.x & ((t / 256) as u8);
            CpuView { bus: bus_after_write(b2, t, v), ..c }
        },
        0x9f => {
            let w = read16_val(c.bus, c.pc);
            let b1 = read16_next(c.bus, c.pc);
            let t = wrap_add16(w, c.y as u16);
            let v = c.a & c.x & ((t / 256) as u8);
            CpuView { bus: bus_after_write(b1, t, v), ..c }
        },
        0x9e => {
            let w = read16_val(c.bus, c.pc);
            let b1 = read16_next(c.bus, c.pc);
            let t = wrap_add16(w, c.y as u16);
            let v = c.x & wrap_add8((t / 256) as u8, 1);
            CpuView { bus: bus_after_write(b1, t, v), ..c }
        },
        0x9c => {
            let w = read16_val(c.bus, c.pc);
            let b1 = read16_next(c.bus, c.pc);
            let t = wrap_add16(w, c.x as u16);
            let v = c.y & wrap_add8((t / 256) as u8, 1);
            CpuView { bus: bus_after_write(b1, t, v), ..c }
        },
        _ => c,
    }
}

/// One fetch-decode-execute iteration from a state whose NMI latch has
/// already been serviced: fetch the opcode, execute it (a fetched BRK stops
/// right there), charge the base cycles, and advance the program counter by
/// the instruction's length when the handler left it alone.
pub open spec fn spec_fetch_exec(c: CpuView) -> CpuView {
    let code = bus_peek(c.bus, c.pc);
    let op = spec_opcode(code);
    let fetched = CpuView { pc: wrap_add16(c.pc, 1), bus: bus_after_read(c.bus, c.pc), ..c };
    if code == 0 {
        fetched
    } else {
        let executed = spec_dispatch(fetched, code);
        let ticked = CpuView { bus: bus_after_tick(executed.bus, op.cycles), ..executed };
        if ticked.pc == fetched.pc {
            CpuView { pc: wrap_add16(ticked.pc, (op.len - 1) as u16), ..ticked }
        } else {
            ticked
        }
    }
}

/// The whole step: service a pending NMI, then fetch and execute.
pub open spec fn spec_step(c: CpuView) -> CpuView {
    spec_fetch_exec(spec_service_nmi(c))
}

/// The step fetches a BRK (and so ends the run loop).
pub open spec fn spec_step_breaks(c: CpuView) -> bool {
    bus_peek(spec_service_nmi(c).bus, spec_service_nmi(c).pc) == 0
}

/// `n` steps from `c`.
pub open spec fn spec_run_n(c: CpuView, n: nat) -> CpuView
    decreases n,
{
    if n == 0 {
        c
    } else {
        spec_step(spec_run_n(c, (n - 1) as nat))
    }
}

/// Work RAM with a program laid over it at 0x0600.
pub open spec fn spec_load_ram(ram: Seq<u8>, program: Seq<u8>) -> Seq<u8> {
    Seq::new(2048, |j: int| if 0x600 <= j < 0x600 + program.len() {
        program[j - 0x600]
    } else {
        ram[j]
    })
}

/// Loading a program touches nothing but that stretch of RAM.
pub open spec fn spec_load(c: CpuView, program: Seq<u8>) -> CpuView {
    CpuView { bus: BusView { ram: spec_load_ram(c.bus.ram, program), ..c.bus }, ..c }
}

/// Reset: registers cleared, stack pointer at 0xfd, interrupt-disable and
/// the always-set bit up, program counter from the vector at 0xfffc.
pub open spec fn spec_reset(c: CpuView) -> CpuView {
    CpuView {
        a: 0,
        x: 0,
        y: 0,
        status: 0x24,
        sp: 0xfd,
        pc: read16_val(c.bus, 0xfffc),
        bus: read16_next(c.bus, 0xfffc),
    }
}

/// The state a loaded program starts from: the program in RAM at 0x0600,
/// the registers reset, and the program counter pointed at 0x0600.
pub open spec fn spec_program_start(c: CpuView, program: Seq<u8>) -> CpuView {
    CpuView { pc: 0x600, ..spec_reset(spec_load(c, program)) }
}

/// The run loop from `c` ends after its `n`-th step: either that step
/// fetched a BRK, or the saturating cycle counter stopped advancing.
pub open spec fn spec_run_ends(c: CpuView, n: nat) -> bool {
    &&& n >= 1
    &&& (spec_step_breaks(spec_run_n(c, (n - 1) as nat)) || spec_run_n(c, n).bus.cycles
        <= spec_run_n(c, (n - 1) as nat).bus.cycles)
}

impl Mem for CPU {
    open spec fn mem_wf(&self) -> bool {
        self@.wf()
    }

    fn mem_read(&mut self, addr: u16) -> (r: u8)
        ensures
            r == bus_peek(old(self)@.bus, addr),
            final(self)@ == (CpuView { bus: bus_after_read(old(self)@.bus, addr), ..old(self)@ }),
    {
        self.bus.mem_read(addr)
    }

    fn mem_write(&mut self, addr: u16, data: u8)
        ensures
            final(self)@ == (CpuView { bus: bus_after_write(old(self)@.bus, addr, data), ..old(self)@ }),
    {
        self.bus.mem_write(addr, data)
    }

    fn mem_read_u16(&mut self, pos: u16) -> (r: u16)
        ensures
            r == read16_val(old(self)@.bus, pos),
            final(self)@ == (CpuView { bus: read16_next(old(self)@.bus, pos), ..old(self)@ }),
    {
        self.bus.mem_read_u16(pos)
    }

    fn mem_write_u16(&mut self, pos: u16, data: u16)
        ensures
            final(self)@ == (CpuView { bus: write16_next(old(self)@.bus, pos, data), ..old(self)@ }),
    {
        self.bus.mem_write_u16(pos, data)
    }
}

impl CPU {
    /// A freshly powered CPU over the given bus: registers cleared, stack
    /// pointer at 0xfd, interrupt-disable and the always-set bit up.
    pub fn new(bus: Bus) -> (c: CPU)
        ensures
            c@ == (CpuView { a: 0, x: 0, y: 0, status: 0x24, sp: 0xfd, pc: 0, bus: bus@ }),
            bus@.wf() ==> c@.wf(),
    {
        proof {
            assert(0x24u8 & 0x20 == 0x20) by (bit_vector);
        }
        CPU {
            register_a: 0,
            register_x: 0,
            register_y: 0,
            status: 0b0010_0100,
            program_counter: 0,
            stack_pointer: 0xfd,
            bus,
        }
    }

    /// Computes the effective address of `mode` relative to `addr`, and
    /// whether an indexed computation crossed a page.
    pub fn get_absolute_address(&mut self, mode: &AddressingMode, addr: u16) -> (r: (u16, bool))
        requires
            old(self)@.wf(),
            !(*mode is Immediate),
            !(*mode is NoneAddressing),
        ensures
            ({
                let res = resolve_mode(old(self)@, *mode, addr);
                r.0 == res.ea && r.1 == res.crossed && final(self)@ == (CpuView {
                    bus: res.bus,
                    ..old(self)@
                })
            }),
            final(self)@.wf(),
            final(self)@.bus.cycles >= old(self)@.bus.cycles,
            final(self)@.bus.cycles <= old(self)@.bus.cycles + 2,
    {
        match mode {
            AddressingMode::ZeroPage => {
                let pos: u8 = self.mem_read(addr);
                (pos as u16, false)
            },
            AddressingMode::Absolute => (self.mem_read_u16(addr), false),
            AddressingMode::ZeroPage_X => {
                let pos: u8 = self.mem_read(addr);
                (wadd8(pos, self.register_x) as u16, false)
            },
            AddressingMode::ZeroPage_Y => {
                let pos: u8 = self.mem_read(addr);
                (wadd8(pos, self.register_y) as u16, false)
            },
            AddressingMode::Absolute_X => {
                let base: u16 = self.mem_read_u16(addr);
                let ea: u16 = wadd16(base, self.register_x as u16);
                (ea, base / 256 != ea / 256)
            },
            AddressingMode::Absolute_Y => {
                let base: u16 = self.mem_read_u16(addr);
                let ea: u16 = wadd16(base, self.register_y as u16);
                (ea, base / 256 != ea / 256)
            },
            AddressingMode::Indirect_X => {
                let base: u8 = self.mem_read(addr);
                let ptr: u8 = wadd8(base, self.register_x);
                let lo: u8 = self.mem_read(ptr as u16);
                let hi: u8 = self.mem_read(wadd8(ptr, 1) as u16);
                ((hi as u16) * 256 + lo as u16, false)
            },
            AddressingMode::Indirect_Y => {
                let base: u8 = self.mem_read(addr);
                let lo: u8 = self.mem_read(base as u16);
                let hi: u8 = self.mem_read(wadd8(base, 1) as u16);
                let w: u16 = (hi as u16) * 256 + lo as u16;
                let ea: u16 = wadd16(w, self.register_y as u16);
                (ea, ea / 256 != w / 256)
            },
            _ => (0, false),
        }
    }

    /// Resolves the operand of the instruction at the program counter.
    fn get_operand_address(&mut self, mode: &AddressingMode) -> (r: (u16, bool))
        requires
            old(self)@.wf(),
            !(*mode is NoneAddressing),
        ensures
            ({
                let res = resolve_operand(old(self)@, *mode);
                r.0 == res.ea && r.1 == res.crossed && final(self)@ == (CpuView {
                    bus: res.bus,
                    ..old(self)@
                })
            }),
            final(self)@.wf(),
            final(self)@.bus.cycles >= old(self)@.bus.cycles,
            final(self)@.bus.cycles <= old(self)@.bus.cycles + 2,
    {
        match mode {
            AddressingMode::Immediate => (self.program_counter, false),
            _ => self.get_absolute_address(mode, self.program_counter),
        }
    }

    /// Sets the zero and negative flags from `result`, leaving every other
    /// status bit alone.
    fn update_zero_and_negative_flags(&mut self, result: u8)
        ensures
            final(self)@ == (CpuView { status: znup(old(self)@.status, result), ..old(self)@ }),
            final(self)@.status & 0x20 == old(self)@.status & 0x20,
    {
        proof {
            lemma_znup_bit5(self.status, result);
        }
        if result == 0 {
            self.status = self.status | 0b0000_0010;
        } else {
            self.status = self.status & 0b1111_1101;
        }
        if result >= 0x80 {
            self.status = self.status | 0b1000_0000;
        } else {
            self.status = self.status & 0b0111_1111;
        }
    }

    fn set_register_a(&mut self, value: u8)
        ensures
            final(self)@ == (CpuView {
                a: value,
                status: znup(old(self)@.status, value),
                ..old(self)@
            }),
            final(self)@.status & 0x20 == old(self)@.status & 0x20,
    {
        self.register_a = value;
        self.update_zero_and_negative_flags(value);
    }

    fn set_carry_flag(&mut self)
        ensures
            final(self)@ == (CpuView { status: old(self)@.status | 0x01, ..old(self)@ }),
            final(self)@.status & 0x20 == old(self)@.status & 0x20,
    {
        proof {
            lemma_status_bit5(self.status);
        }
        self.status = self.status | 0b0000_0001;
    }

    fn clear_carry_flag(&mut self)
        ensures
            final(self)@ == (CpuView { status: old(self)@.status & 0xfe, ..old(self)@ }),
            final(self)@.status & 0x20 == old(self)@.status & 0x20,
    {
        proof {
            lemma_status_bit5(self.status);
        }
        self.status = self.status & 0b1111_1110;
    }

    fn update_carry(&mut self, on: bool)
        ensures
            final(self)@ == (CpuView { status: upd_c(old(self)@.status, on), ..old(self)@ }),
            final(self)@.status & 0x20 == old(self)@.status & 0x20,
    {
        if on {
            self.set_carry_flag();
        } else {
            self.clear_carry_flag();
        }
    }

    fn update_overflow(&mut self, on: bool)
        ensures
            final(self)@ == (CpuView { status: upd_v(old(self)@.status, on), ..old(self)@ }),
            final(self)@.status & 0x20 == old(self)@.status & 0x20,
    {
        proof {
            lemma_status_bit5(self.status);
        }
        if on {
            self.status = self.status | 0b0100_0000;
        } else {
            self.status = self.status & 0b1011_1111;
        }
    }

    fn update_negative(&mut self, v: u8)
        ensures
            final(self)@ == (CpuView { status: upd_n(old(self)@.status, v), ..old(self)@ }),
            final(self)@.status & 0x20 == old(self)@.status & 0x20,
    {
        proof {
            lemma_status_bit5(self.status);
        }
        if v >= 0x80 {
            self.status = self.status | 0b1000_0000;
        } else {
            self.status = self.status & 0b0111_1111;
        }
    }

    fn update_zero(&mut self, v: u8)
        ensures
            final(self)@ == (CpuView { status: upd_z(old(self)@.status, v), ..old(self)@ }),
            final(self)@.status & 0x20 == old(self)@.status & 0x20,
    {
        proof {
            lemma_status_bit5(self.status);
        }
        if v == 0 {
            self.status = self.status | 0b0000_0010;
        } else {
            self.status = self.status & 0b1111_1101;
        }
    }

    fn lda(&mut self, mode: &AddressingMode)
        requires
            old(self)@.wf(),
            !(*mode is NoneAddressing),
        ensures
            final(self)@ == (CpuView {
                a: operand_val(old(self)@, *mode),
                status: znup(old(self)@.status, operand_val(old(self)@, *mode)),
                bus: maybe_tick(
                    bus_after_operand_read(old(self)@, *mode),
                    operand_crossed(old(self)@, *mode),
                ),
                ..old(self)@
            }),
            final(self)@.wf(),
            final(self)@.bus.cycles >= old(self)@.bus.cycles,
            final(self)@.bus.cycles <= old(self)@.bus.cycles + 2,
    {
        let (addr, page_cross) = self.get_operand_address(mode);
        let value: u8 = self.mem_read(addr);
        self.set_register_a(value);
        if page_cross {
            self.bus.tick(1);
        }
    }

    fn ldx(&mut self, mode: &AddressingMode)
        requires
            old(self)@.wf(),
            !(*mode is NoneAddressing),
        ensures
            final(self)@ == (CpuView {
                x: operand_val(old(self)@, *mode),
                status: znup(old(self)@.status, operand_val(old(self)@, *mode)),
                bus: maybe_tick(
                    bus_after_operand_read(old(self)@, *mode),
                    operand_crossed(old(self)@, *mode),
                ),
                ..old(self)@
            }),
            final(self)@.wf(),
            final(self)@.bus.cycles >= old(self)@.bus.cycles,
            final(self)@.bus.cycles <= old(self)@.bus.cycles + 2,
    {
        let (addr, page_cross) = self.get_operand_address(mode);
        let value: u8 = self.mem_read(addr);
        self.register_x = value;
        self.update_zero_and_negative_flags(value);
        if page_cross {
            self.bus.tick(1);
        }
    }

    fn ldy(&mut self, mode: &AddressingMode)
        requires
            old(self)@.wf(),
            !(*mode is NoneAddressing),
        ensures
            final(self)@ == (CpuView {
                y: operand_val(old(self)@, *mode),
                status: znup(old(self)@.status, operand_val(old(self)@, *mode)),
                bus: maybe_tick(
                    bus_after_operand_read(old(self)@, *mode),
                    operand_crossed(old(self)@, *mode),
                ),
                ..old(self)@
            }),
            final(self)@.wf(),
            final(self)@.bus.cycles >= old(self)@.bus.cycles,
            final(self)@.bus.cycles <= old(self)@.bus.cycles + 2,
    {
        let (addr, page_cross) = self.get_operand_address(mode);
        let value: u8 = self.mem_read(addr);
        self.register_y = value;
        self.update_zero_and_negative_flags(value);
        if page_cross {
            self.bus.tick(1);
        }
    }

    fn sta(&mut self, mode: &AddressingMode)
        requires
            old(self)@.wf(),
            !(*mode is NoneAddressing),
        ensures
            final(self)@ == (CpuView {
                bus: bus_after_store(old(self)@, *mode, old(self)@.a),
                ..old(self)@
            }),
            final(self)@.wf(),
            final(self)@.bus.cycles >= old(self)@.bus.cycles,
            final(self)@.bus.cycles <= old(self)@.bus.cycles + 2,
    {
        let (addr, _) = self.get_operand_address(mode);
        let a: u8 = self.register_a;
        self.mem_write(addr, a);
    }

    fn and(&mut self, mode: &AddressingMode)
        requires
            old(self)@.wf(),
            !(*mode is NoneAddressing),
        ensures
            final(self)@ == (CpuView {
                a: operand_val(old(self)@, *mode) & old(self)@.a,
                status: znup(old(self)@.status, operand_val(old(self)@, *mode) & old(self)@.a),
                bus: maybe_tick(
                    bus_after_operand_read(old(self)@, *mode),
                    operand_crossed(old(self)@, *mode),
                ),
                ..old(self)@
            }),
            final(self)@.wf(),
            final(self)@.bus.cycles >= old(self)@.bus.cycles,
            final(self)@.bus.cycles <= old(self)@.bus.cycles + 2,
    {
        let (addr, page_cross) = self.get_operand_address(mode);
        let data: u8 = self.mem_read(addr);
        let a: u8 = self.register_a;
        self.set_register_a(data & a);
        if page_cross {
            self.bus.tick(1);
        }
    }

    fn eor(&mut self, mode: &AddressingMode)
        requires
            old(self)@.wf(),
            !(*mode is NoneAddressing),
        ensures
            final(self)@ == (CpuView {
                a: operand_val(old(self)@, *mode) ^ old(self)@.a,
                status: znup(old(self)@.status, operand_val(old(self)@, *mode) ^ old(self)@.a),
                bus: maybe_tick(
                    bus_after_operand_read(old(self)@, *mode),
                    operand_crossed(old(self)@, *mode),
                ),
                ..old(self)@
            }),
            final(self)@.wf(),
            final(self)@.bus.cycles >= old(self)@.bus.cycles,
            final(self)@.bus.cycles <= old(self)@.bus.cycles + 2,
    {
        let (addr, page_cross) = self.get_operand_address(mode);
        let data: u8 = self.mem_read(addr);
        let a: u8 = self.register_a;
        self.set_register_a(data ^ a);
        if page_cross {
            self.bus.tick(1);
        }
    }

    fn ora(&mut self, mode: &AddressingMode)
        requires
            old(self)@.wf(),
            !(*mode is NoneAddressing),
        ensures
            final(self)@ == (CpuView {
                a: operand_val(old(self)@, *mode) | old(self)@.a,
                status: znup(old(self)@.status, operand_val(old(self)@, *mode) | old(self)@.a),
                bus: maybe_tick(
                    bus_after_operand_read(old(self)@, *mode),
                    operand_crossed(old(self)@, *mode),
                ),
                ..old(self)@
            }),
            final(self)@.wf(),
            final(self)@.bus.cycles >= old(self)@.bus.cycles,
            final(self)@.bus.cycles <= old(self)@.bus.cycles + 2,
    {
        let (addr, page_cross) = self.get_operand_address(mode);
        let data: u8 = self.mem_read(addr);
        let a: u8 = self.register_a;
        self.set_register_a(data | a);
        if page_cross {
            self.bus.tick(1);
        }
    }

    fn tax(&mut self)
        ensures
            final(self)@ == (CpuView {
                x: old(self)@.a,
                status: znup(old(self)@.status, old(self)@.a),
                ..old(self)@
            }),
            final(self)@.status & 0x20 == old(self)@.status & 0x20,
    {
        self.register_x = self.register_a;
        let x: u8 = self.register_x;
        self.update_zero_and_negative_flags(x);
    }

    fn inc(&mut self, mode: &AddressingMode) -> (r: u8)
        requires
            old(self)@.wf(),
            !(*mode is NoneAddressing),
        ensures
            r == wrap_add8(operand_val(old(self)@, *mode), 1),
            final(self)@ == (CpuView {
                status: znup(old(self)@.status, wrap_add8(operand_val(old(self)@, *mode), 1)),
                bus: bus_after_rmw(old(self)@, *mode, wrap_add8(operand_val(old(self)@, *mode), 1)),
                ..old(self)@
            }),
            final(self)@.wf(),
            final(self)@.bus.cycles >= old(self)@.bus.cycles,
            final(self)@.bus.cycles <= old(self)@.bus.cycles + 2,
    {
        let (addr, _) = self.get_operand_address(mode);
        let data: u8 = self.mem_read(addr);
        let v: u8 = wadd8(data, 1);
        self.mem_write(addr, v);
        self.update_zero_and_negative_flags(v);
        v
    }

    fn dec(&mut self, mode: &AddressingMode) -> (r: u8)
        requires
            old(self)@.wf(),
            !(*mode is NoneAddressing),
        ensures
            r == wrap_sub8(operand_val(old(self)@, *mode), 1),
            final(self)@ == (CpuView {
                status: znup(old(self)@.status, wrap_sub8(operand_val(old(self)@, *mode), 1)),
                bus: bus_after_rmw(old(self)@, *mode, wrap_sub8(operand_val(old(self)@, *mode), 1)),
                ..old(self)@
            }),
            final(self)@.wf(),
            final(self)@.bus.cycles >= old(self)@.bus.cycles,
            final(self)@.bus.cycles <= old(self)@.bus.cycles + 2,
    {
        let (addr, _) = self.get_operand_address(mode);
        let data: u8 = self.mem_read(addr);
        let v: u8 = wsub8(data, 1);
        self.mem_write(addr, v);
        self.update_zero_and_negative_flags(v);
        v
    }

    fn inx(&mut self)
        ensures
            final(self)@ == (CpuView {
                x: wrap_add8(old(self)@.x, 1),
                status: znup(old(self)@.status, wrap_add8(old(self)@.x, 1)),
                ..old(self)@
            }),
            final(self)@.status & 0x20 == old(self)@.status & 0x20,
    {
        self.register_x = wadd8(self.register_x, 1);
        let x: u8 = self.register_x;
        self.update_zero_and_negative_flags(x);
    }

    fn iny(&mut self)
        ensures
            final(self)@ == (CpuView {
                y: wrap_add8(old(self)@.y, 1),
                status: znup(old(self)@.status, wrap_add8(old(self)@.y, 1)),
                ..old(self)@
            }),
            final(self)@.status & 0x20 == old(self)@.status & 0x20,
    {
        self.register_y = wadd8(self.register_y, 1);
        let y: u8 = self.register_y;
        self.update_zero_and_negative_flags(y);
    }

    fn dex(&mut self)
        ensures
            final(self)@ == (CpuView {
                x: wrap_sub8(old(self)@.x, 1),
                status: znup(old(self)@.status, wrap_sub8(old(self)@.x, 1)),
                ..old(self)@
            }),
            final(self)@.status & 0x20 == old(self)@.status & 0x20,
    {
        self.register_x = wsub8(self.register_x, 1);
        let x: u8 = self.register_x;
        self.update_zero_and_negative_flags(x);
    }

    fn dey(&mut self)
        ensures
            final(self)@ == (CpuView {
                y: wrap_sub8(old(self)@.y, 1),
                status: znup(old(self)@.status, wrap_sub8(old(self)@.y, 1)),
                ..old(self)@
            }),
            final(self)@.status & 0x20 == old(self)@.status & 0x20,
    {
        self.register_y = wsub8(self.register_y, 1);
        let y: u8 = self.register_y;
        self.update_zero_and_negative_flags(y);
    }

    /// A + data + carry into the accumulator, with C, V, Z, N; shared by
    /// ADC, SBC (on the complemented operand), RRA and ISB.
    fn add_to_register_a(&mut self, data: u8)
        ensures
            final(self)@ == (CpuView {
                a: adc_value(old(self)@.status, old(self)@.a, data),
                status: adc_flags(old(self)@.status, old(self)@.a, data),
                ..old(self)@
            }),
            final(self)@.status & 0x20 == old(self)@.status & 0x20,
    {
        let a: u8 = self.register_a;
        let c: u8 = self.status & 1;
        let sum: u16 = a as u16 + data as u16 + c as u16;
        self.update_carry(sum > 0xff);
        let result: u8 = (sum % 256) as u8;
        self.update_overflow((data ^ result) & (result ^ a) & 0x80 != 0);
        self.set_register_a(result);
    }

    fn adc(&mut self, mode: &AddressingMode)
        requires
            old(self)@.wf(),
            !(*mode is NoneAddressing),
        ensures
            final(self)@ == (CpuView {
                a: adc_value(old(self)@.status, old(self)@.a, operand_val(old(self)@, *mode)),
                status: adc_flags(old(self)@.status, old(self)@.a, operand_val(old(self)@, *mode)),
                bus: maybe_tick(
                    bus_after_operand_read(old(self)@, *mode),
                    operand_crossed(old(self)@, *mode),
                ),
                ..old(self)@
            }),
            final(self)@.wf(),
            final(self)@.bus.cycles >= old(self)@.bus.cycles,
            final(self)@.bus.cycles <= old(self)@.bus.cycles + 2,
    {
        let (addr, page_cross) = self.get_operand_address(mode);
        let data: u8 = self.mem_read(addr);
        self.add_to_register_a(data);
        if page_cross {
            self.bus.tick(1);
        }
    }

    /// SBC is ADC on the one's complement of the operand.
    fn sbc(&mut self, mode: &AddressingMode)
        requires
            old(self)@.wf(),
            !(*mode is NoneAddressing),
        ensures
            final(self)@ == (CpuView {
                a: adc_value(old(self)@.status, old(self)@.a, operand_val(old(self)@, *mode) ^ 0xff),
                status: adc_flags(
                    old(self)@.status,
                    old(self)@.a,
                    operand_val(old(self)@, *mode) ^ 0xff,
                ),
                bus: maybe_tick(
                    bus_after_operand_read(old(self)@, *mode),
                    operand_crossed(old(self)@, *mode),
                ),
                ..old(self)@
            }),
            final(self)@.wf(),
            final(self)@.bus.cycles >= old(self)@.bus.cycles,
            final(self)@.bus.cycles <= old(self)@.bus.cycles + 2,
    {
        let (addr, page_cross) = self.get_operand_address(mode);
        let data: u8 = self.mem_read(addr);
        self.add_to_register_a(data ^ 0xff);
        if page_cross {
            self.bus.tick(1);
        }
    }

    fn stack_push(&mut self, data: u8)
        requires
            old(self)@.wf(),
        ensures
            final(self)@ == (CpuView {
                sp: wrap_sub8(old(self)@.sp, 1),
                bus: bus_after_write(old(self)@.bus, (0x100 + old(self)@.sp as u16) as u16, data),
                ..old(self)@
            }),
            final(self)@.wf(),
            final(self)@.bus.cycles >= old(self)@.bus.cycles,
            final(self)@.bus.cycles <= old(self)@.bus.cycles + 2,
    {
        let addr: u16 = 0x100 + self.stack_pointer as u16;
        self.mem_write(addr, data);
        self.stack_pointer = wsub8(self.stack_pointer, 1);
    }

    fn stack_pop(&mut self) -> (r: u8)
        requires
            old(self)@.wf(),
        ensures
            ({
                let sp1 = wrap_add8(old(self)@.sp, 1);
                r == bus_peek(old(self)@.bus, (0x100 + sp1 as u16) as u16) && final(self)@
                    == (CpuView {
                    sp: sp1,
                    bus: bus_after_read(old(self)@.bus, (0x100 + sp1 as u16) as u16),
                    ..old(self)@
                })
            }),
            final(self)@.wf(),
            final(self)@.bus.cycles >= old(self)@.bus.cycles,
            final(self)@.bus.cycles <= old(self)@.bus.cycles + 2,
    {
        self.stack_pointer = wadd8(self.stack_pointer, 1);
        let addr: u16 = 0x100 + self.stack_pointer as u16;
        self.mem_read(addr)
    }

    fn stack_push_u16(&mut self, data: u16)
        requires
            old(self)@.wf(),
        ensures
            ({
                let b1 = bus_after_write(
                    old(self)@.bus,
                    (0x100 + old(self)@.sp as u16) as u16,
                    (data / 256) as u8,
                );
                let sp1 = wrap_sub8(old(self)@.sp, 1);
                final(self)@ == (CpuView {
                    sp: wrap_sub8(sp1, 1),
                    bus: bus_after_write(b1, (0x100 + sp1 as u16) as u16, (data % 256) as u8),
                    ..old(self)@
                })
            }),
            final(self)@.wf(),
            final(self)@.bus.cycles >= old(self)@.bus.cycles,
            final(self)@.bus.cycles <= old(self)@.bus.cycles + 2,
    {
        let hi: u8 = (data / 256) as u8;
        let lo: u8 = (data % 256) as u8;
        self.stack_push(hi);
        self.stack_push(lo);
    }

    fn stack_pop_u16(&mut self) -> (r: u16)
        requires
            old(self)@.wf(),
        ensures
            ({
                let sp1 = wrap_add8(old(self)@.sp, 1);
                let lo = bus_peek(old(self)@.bus, (0x100 + sp1 as u16) as u16);
                let b1 = bus_after_read(old(self)@.bus, (0x100 + sp1 as u16) as u16);
                let sp2 = wrap_add8(sp1, 1);
                let hi = bus_peek(b1, (0x100 + sp2 as u16) as u16);
                r == hi * 256 + lo && final(self)@ == (CpuView {
                    sp: sp2,
                    bus: bus_after_read(b1, (0x100 + sp2 as u16) as u16),
                    ..old(self)@
                })
            }),
            final(self)@.wf(),
            final(self)@.bus.cycles >= old(self)@.bus.cycles,
            final(self)@.bus.cycles <= old(self)@.bus.cycles + 2,
    {
        let lo: u8 = self.stack_pop();
        let hi: u8 = self.stack_pop();
        (hi as u16) * 256 + lo as u16
    }

    fn pla(&mut self)
        requires
            old(self)@.wf(),
        ensures
            ({
                let sp1 = wrap_add8(old(self)@.sp, 1);
                let v = bus_peek(old(self)@.bus, (0x100 + sp1 as u16) as u16);
                final(self)@ == (CpuView {
                    a: v,
                    status: znup(old(self)@.status, v),
                    sp: sp1,
                    bus: bus_after_read(old(self)@.bus, (0x100 + sp1 as u16) as u16),
                    ..old(self)@
                })
            }),
            final(self)@.wf(),
            final(self)@.bus.cycles >= old(self)@.bus.cycles,
            final(self)@.bus.cycles <= old(self)@.bus.cycles + 2,
    {
        let data: u8 = self.stack_pop();
        self.set_register_a(data);
    }

    /// Pull the status register: B comes back clear, the always-set bit set.
    fn plp(&mut self)
        requires
            old(self)@.wf(),
        ensures
            ({
                let sp1 = wrap_add8(old(self)@.sp, 1);
                let v = bus_peek(old(self)@.bus, (0x100 + sp1 as u16) as u16);
                final(self)@ == (CpuView {
                    status: (v & 0xef) | 0x20,
                    sp: sp1,
                    bus: bus_after_read(old(self)@.bus, (0x100 + sp1 as u16) as u16),
                    ..old(self)@
                })
            }),
            final(self)@.wf(),
            final(self)@.bus.cycles >= old(self)@.bus.cycles,
            final(self)@.bus.cycles <= old(self)@.bus.cycles + 2,
    {
        let v: u8 = self.stack_pop();
        proof {
            lemma_status_bit5(v);
        }
        self.status = (v & 0b1110_1111) | 0b0010_0000;
    }

    /// Push the status register with B and the always-set bit forced on.
    fn php(&mut self)
        requires
            old(self)@.wf(),
        ensures
            final(self)@ == (CpuView {
                sp: wrap_sub8(old(self)@.sp, 1),
                bus: bus_after_write(
                    old(self)@.bus,
                    (0x100 + old(self)@.sp as u16) as u16,
                    old(self)@.status | 0x30,
                ),
                ..old(self)@
            }),
            final(self)@.wf(),
            final(self)@.bus.cycles >= old(self)@.bus.cycles,
            final(self)@.bus.cycles <= old(self)@.bus.cycles + 2,
    {
        let flag: u8 = self.status | 0b0011_0000;
        self.stack_push(flag);
    }

    fn bit(&mut self, mode: &AddressingMode)
        requires
            old(self)@.wf(),
            !(*mode is NoneAddressing),
        ensures
            ({
                let m = operand_val(old(self)@, *mode);
                final(self)@ == (CpuView {
                    status: upd_z(upd_n(upd_v(old(self)@.status, m & 0x40 != 0), m), old(self)@.a & m),
                    bus: bus_after_operand_read(old(self)@, *mode),
                    ..old(self)@
                })
            }),
            final(self)@.wf(),
            final(self)@.bus.cycles >= old(self)@.bus.cycles,
            final(self)@.bus.cycles <= old(self)@.bus.cycles + 2,
    {
        let (addr, _) = self.get_operand_address(mode);
        let data: u8 = self.mem_read(addr);
        self.update_overflow(data & 0x40 != 0);
        self.update_negative(data);
        let a: u8 = self.register_a;
        self.update_zero(a & data);
    }

    fn compare(&mut self, mode: &AddressingMode, compare_with: u8)
        requires
            old(self)@.wf(),
            !(*mode is NoneAddressing),
        ensures
            final(self)@ == (CpuView {
                status: compare_status(
                    old(self)@.status,
                    compare_with,
                    operand_val(old(self)@, *mode),
                ),
                bus: maybe_tick(
                    bus_after_operand_read(old(self)@, *mode),
                    operand_crossed(old(self)@, *mode),
                ),
                ..old(self)@
            }),
            final(self)@.wf(),
            final(self)@.bus.cycles >= old(self)@.bus.cycles,
            final(self)@.bus.cycles <= old(self)@.bus.cycles + 2,
    {
        let (addr, page_cross) = self.get_operand_address(mode);
        let data: u8 = self.mem_read(addr);
        self.update_carry(data <= compare_with);
        let diff: u8 = wsub8(compare_with, data);
        self.update_zero_and_negative_flags(diff);
        if page_cross {
            self.bus.tick(1);
        }
    }

    /// A taken branch charges one cycle, and one more when the target sits
    /// on a different page than the instruction's end.
    fn branch(&mut self, condition: bool)
        requires
            old(self)@.wf(),
        ensures
            !condition ==> final(self)@ == old(self)@,
            condition ==> ({
                let b1 = bus_after_tick(old(self)@.bus, 1);
                let off = bus_peek(b1, old(self)@.pc);
                let b2 = bus_after_read(b1, old(self)@.pc);
                let target = branch_target(old(self)@.pc, off);
                final(self)@ == (CpuView {
                    pc: target,
                    bus: (
                        if page_crossed(wrap_add16(old(self)@.pc, 1), target) {
                            bus_after_tick(b2, 1)
                        } else {
                            b2
                        }
                    ),
                    ..old(self)@
                })
            }),
            final(self)@.wf(),
            final(self)@.bus.cycles >= old(self)@.bus.cycles,
            final(self)@.bus.cycles <= old(self)@.bus.cycles + 2,
    {
        if condition {
            self.bus.tick(1);
            let pc: u16 = self.program_counter;
            let jump: u8 = self.mem_read(pc);
            let ext: u16 = if jump < 0x80 {
                jump as u16
            } else {
                jump as u16 + 0xff00
            };
            let jump_addr: u16 = wadd16(wadd16(pc, 1), ext);
            if wadd16(pc, 1) / 256 != jump_addr / 256 {
                self.bus.tick(1);
            }
            self.program_counter = jump_addr;
        }
    }

    fn asl_accumulator(&mut self)
        ensures
            final(self)@ == (CpuView {
                a: asl_val(old(self)@.a),
                status: znup(upd_c(old(self)@.status, old(self)@.a >= 0x80), asl_val(old(self)@.a)),
                ..old(self)@
            }),
            final(self)@.status & 0x20 == old(self)@.status & 0x20,
    {
        let data: u8 = self.register_a;
        self.update_carry(data >= 0x80);
        self.set_register_a(((data as u16 * 2) % 256) as u8);
    }

    fn asl(&mut self, mode: &AddressingMode) -> (r: u8)
        requires
            old(self)@.wf(),
            !(*mode is NoneAddressing),
        ensures
            ({
                let m = operand_val(old(self)@, *mode);
                r == asl_val(m) && final(self)@ == (CpuView {
                    status: znup(upd_c(old(self)@.status, m >= 0x80), asl_val(m)),
                    bus: bus_after_rmw(old(self)@, *mode, asl_val(m)),
                    ..old(self)@
                })
            }),
            final(self)@.wf(),
            final(self)@.bus.cycles >= old(self)@.bus.cycles,
            final(self)@.bus.cycles <= old(self)@.bus.cycles + 2,
    {
        let (addr, _) = self.get_operand_address(mode);
        let data: u8 = self.mem_read(addr);
        self.update_carry(data >= 0x80);
        let v: u8 = ((data as u16 * 2) % 256) as u8;
        self.mem_write(addr, v);
        self.update_zero_and_negative_flags(v);
        v
    }

    fn lsr_accumulator(&mut self)
        ensures
            final(self)@ == (CpuView {
                a: lsr_val(old(self)@.a),
                status: znup(upd_c(old(self)@.status, old(self)@.a & 1 == 1), lsr_val(old(self)@.a)),
                ..old(self)@
            }),
            final(self)@.status & 0x20 == old(self)@.status & 0x20,
    {
        let data: u8 = self.register_a;
        self.update_carry(data & 1 == 1);
        self.set_register_a(data / 2);
    }

    fn lsr(&mut self, mode: &AddressingMode) -> (r: u8)
        requires
            old(self)@.wf(),
            !(*mode is NoneAddressing),
        ensures
            ({
                let m = operand_val(old(self)@, *mode);
                r == lsr_val(m) && final(self)@ == (CpuView {
                    status: znup(upd_c(old(self)@.status, m & 1 == 1), lsr_val(m)),
                    bus: bus_after_rmw(old(self)@, *mode, lsr_val(m)),
                    ..old(self)@
                })
            }),
            final(self)@.wf(),
            final(self)@.bus.cycles >= old(self)@.bus.cycles,
            final(self)@.bus.cycles <= old(self)@.bus.cycles + 2,
    {
        let (addr, _) = self.get_operand_address(mode);
        let data: u8 = self.mem_read(addr);
        self.update_carry(data & 1 == 1);
        let v: u8 = data / 2;
        self.mem_write(addr, v);
        self.update_zero_and_negative_flags(v);
        v
    }

    fn rol_accumulator(&mut self)
        ensures
            ({
                let v = rol_val(old(self)@.a, old(self)@.status & 1 == 1);
                final(self)@ == (CpuView {
                    a: v,
                    status: znup(upd_c(old(self)@.status, old(self)@.a >= 0x80), v),
                    ..old(self)@
                })
            }),
            final(self)@.status & 0x20 == old(self)@.status & 0x20,
    {
        let data: u8 = self.register_a;
        let old_carry: bool = self.status & 1 == 1;
        self.update_carry(data >= 0x80);
        let shifted: u8 = ((data as u16 * 2) % 256) as u8;
        let v: u8 = if old_carry {
            shifted + 1
        } else {
            shifted
        };
        self.set_register_a(v);
    }

    fn rol(&mut self, mode: &AddressingMode) -> (r: u8)
        requires
            old(self)@.wf(),
            !(*mode is NoneAddressing),
        ensures
            ({
                let m = operand_val(old(self)@, *mode);
                let v = rol_val(m, old(self)@.status & 1 == 1);
                r == v && final(self)@ == (CpuView {
                    status: znup(upd_c(old(self)@.status, m >= 0x80), v),
                    bus: bus_after_rmw(old(self)@, *mode, v),
                    ..old(self)@
                })
            }),
            final(self)@.wf(),
            final(self)@.bus.cycles >= old(self)@.bus.cycles,
            final(self)@.bus.cycles <= old(self)@.bus.cycles + 2,
    {
        let (addr, _) = self.get_operand_address(mode);
        let data: u8 = self.mem_read(addr);
        let old_carry: bool = self.status & 1 == 1;
        self.update_carry(data >= 0x80);
        let shifted: u8 = ((data as u16 * 2) % 256) as u8;
        let v: u8 = if old_carry {
            shifted + 1
        } else {
            shifted
        };
        self.mem_write(addr, v);
        self.update_zero_and_negative_flags(v);
        v
    }

    fn ror_accumulator(&mut self)
        ensures
            ({
                let v = ror_val(old(self)@.a, old(self)@.status & 1 == 1);
                final(self)@ == (CpuView {
                    a: v,
                    status: znup(upd_c(old(self)@.status, old(self)@.a & 1 == 1), v),
                    ..old(self)@
                })
            }),
            final(self)@.status & 0x20 == old(self)@.status & 0x20,
    {
        let data: u8 = self.register_a;
        let old_carry: bool = self.status & 1 == 1;
        self.update_carry(data & 1 == 1);
        let v: u8 = if old_carry {
            data / 2 + 128
        } else {
            data / 2
        };
        self.set_register_a(v);
    }

    fn tay(&mut self)
        ensures
            final(self)@ == (CpuView {
                y: old(self)@.a,
                status: znup(old(self)@.status, old(self)@.a),
                ..old(self)@
            }),
            final(self)@.status & 0x20 == old(self)@.status & 0x20,
    {
        self.register_y = self.register_a;
        let y: u8 = self.register_y;
        self.update_zero_and_negative_flags(y);
    }

    fn tsx(&mut self)
        ensures
            final(self)@ == (CpuView {
                x: old(self)@.sp,
                status: znup(old(self)@.status, old(self)@.sp),
                ..old(self)@
            }),
            final(self)@.status & 0x20 == old(self)@.status & 0x20,
    {
        self.register_x = self.stack_pointer;
        let x: u8 = self.register_x;
        self.update_zero_and_negative_flags(x);
    }

    fn txa(&mut self)
        ensures
            final(self)@ == (CpuView {
                a: old(self)@.x,
                status: znup(old(self)@.status, old(self)@.x),
                ..old(self)@
            }),
            final(self)@.status & 0x20 == old(self)@.status & 0x20,
    {
        let x: u8 = self.register_x;
        self.set_register_a(x);
    }

    /// TXS copies X into the stack pointer and, alone among the transfers,
    /// sets no flags.
    fn txs(&mut self)
        ensures
            final(self)@ == (CpuView { sp: old(self)@.x, ..old(self)@ }),
    {
        self.stack_pointer = self.register_x;
    }

    fn tya(&mut self)
        ensures
            final(self)@ == (CpuView {
                a: old(self)@.y,
                status: znup(old(self)@.status, old(self)@.y),
                ..old(self)@
            }),
            final(self)@.status & 0x20 == old(self)@.status & 0x20,
    {
        let y: u8 = self.register_y;
        self.set_register_a(y);
    }

    fn stx(&mut self, mode: &AddressingMode)
        requires
            old(self)@.wf(),
            !(*mode is NoneAddressing),
        ensures
            final(self)@ == (CpuView {
                bus: bus_after_store(old(self)@, *mode, old(self)@.x),
                ..old(self)@
            }),
            final(self)@.wf(),
            final(self)@.bus.cycles >= old(self)@.bus.cycles,
            final(self)@.bus.cycles <= old(self)@.bus.cycles + 2,
    {
        let (addr, _) = self.get_operand_address(mode);
        let x: u8 = self.register_x;
        self.mem_write(addr, x);
    }

    fn sty(&mut self, mode: &AddressingMode)
        requires
            old(self)@.wf(),
            !(*mode is NoneAddressing),
        ensures
            final(self)@ == (CpuView {
                bus: bus_after_store(old(self)@, *mode, old(self)@.y),
                ..old(self)@
            }),
            final(self)@.wf(),
            final(self)@.bus.cycles >= old(self)@.bus.cycles,
            final(self)@.bus.cycles <= old(self)@.bus.cycles + 2,
    {
        let (addr, _) = self.get_operand_address(mode);
        let y: u8 = self.register_y;
        self.mem_write(addr, y);
    }

    fn jmp_absolute(&mut self)
        requires
            old(self)@.wf(),
        ensures
            final(self)@ == (CpuView {
                pc: read16_val(old(self)@.bus, old(self)@.pc),
                bus: read16_next(old(self)@.bus, old(self)@.pc),
                ..old(self)@
            }),
            final(self)@.wf(),
            final(self)@.bus.cycles >= old(self)@.bus.cycles,
            final(self)@.bus.cycles <= old(self)@.bus.cycles + 2,
    {
        let target: u16 = self.mem_read_u16(self.program_counter);
        self.program_counter = target;
    }

    /// Indirect JMP, with the page-boundary quirk: a pointer whose low byte
    /// is 0xff takes its high byte from the start of the same page.
    fn jmp_indirect(&mut self)
        requires
            old(self)@.wf(),
        ensures
            ({
                let w = read16_val(old(self)@.bus, old(self)@.pc);
                let b1 = read16_next(old(self)@.bus, old(self)@.pc);
                let target = (
                    if w % 256 == 0xff {
                        (bus_peek(bus_after_read(b1, w), ((w / 256) * 256) as u16) * 256 + bus_peek(b1, w)) as u16
                    } else {
                        read16_val(b1, w)
                    }
                );
                let b2 = (
                    if w % 256 == 0xff {
                        bus_after_read(bus_after_read(b1, w), ((w / 256) * 256) as u16)
                    } else {
                        read16_next(b1, w)
                    }
                );
                final(self)@ == (CpuView { pc: target, bus: b2, ..old(self)@ })
            }),
            final(self)@.wf(),
            final(self)@.bus.cycles >= old(self)@.bus.cycles,
            final(self)@.bus.cycles <= old(self)@.bus.cycles + 2,
    {
        let w: u16 = self.mem_read_u16(self.program_counter);
        let target: u16 = if w % 256 == 0xff {
            let lo: u8 = self.mem_read(w);
            let hi: u8 = self.mem_read((w / 256) * 256);
            (hi as u16) * 256 + lo as u16
        } else {
            self.mem_read_u16(w)
        };
        self.program_counter = target;
    }

    /// JSR pushes the address of the instruction's last byte, then jumps.
    fn jsr(&mut self)
        requires
            old(self)@.wf(),
        ensures
            ({
                let ret = wrap_add16(old(self)@.pc, 1);
                let b1 = bus_after_write(
                    old(self)@.bus,
                    (0x100 + old(self)@.sp as u16) as u16,
                    (ret / 256) as u8,
                );
                let sp1 = wrap_sub8(old(self)@.sp, 1);
                let b2 = bus_after_write(b1, (0x100 + sp1 as u16) as u16, (ret % 256) as u8);
                final(self)@ == (CpuView {
                    pc: read16_val(b2, old(self)@.pc),
                    sp: wrap_sub8(sp1, 1),
                    bus: read16_next(b2, old(self)@.pc),
                    ..old(self)@
                })
            }),
            final(self)@.wf(),
            final(self)@.bus.cycles >= old(self)@.bus.cycles,
            final(self)@.bus.cycles <= old(self)@.bus.cycles + 2,
    {
        let ret: u16 = wadd16(self.program_counter, 1);
        self.stack_push_u16(ret);
        let target: u16 = self.mem_read_u16(self.program_counter);
        self.program_counter = target;
    }

    /// RTS pulls the return address and resumes one byte past it.
    fn rts(&mut self)
        requires
            old(self)@.wf(),
        ensures
            ({
                let sp1 = wrap_add8(old(self)@.sp, 1);
                let lo = bus_peek(old(self)@.bus, (0x100 + sp1 as u16) as u16);
                let b1 = bus_after_read(old(self)@.bus, (0x100 + sp1 as u16) as u16);
                let sp2 = wrap_add8(sp1, 1);
                let hi = bus_peek(b1, (0x100 + sp2 as u16) as u16);
                final(self)@ == (CpuView {
                    pc: wrap_add16((hi * 256 + lo) as u16, 1),
                    sp: sp2,
                    bus: bus_after_read(b1, (0x100 + sp2 as u16) as u16),
                    ..old(self)@
                })
            }),
            final(self)@.wf(),
            final(self)@.bus.cycles >= old(self)@.bus.cycles,
            final(self)@.bus.cycles <= old(self)@.bus.cycles + 2,
    {
        let w: u16 = self.stack_pop_u16();
        self.program_counter = wadd16(w, 1);
    }

    /// RTI pulls the status register (B cleared, always-set bit on), then
    /// the program counter.
    fn rti(&mut self)
        requires
            old(self)@.wf(),
        ensures
            ({
                let sp1 = wrap_add8(old(self)@.sp, 1);
                let flags = bus_peek(old(self)@.bus, (0x100 + sp1 as u16) as u16);
                let b1 = bus_after_read(old(self)@.bus, (0x100 + sp1 as u16) as u16);
                let sp2 = wrap_add8(sp1, 1);
                let lo = bus_peek(b1, (0x100 + sp2 as u16) as u16);
                let b2 = bus_after_read(b1, (0x100 + sp2 as u16) as u16);
                let sp3 = wrap_add8(sp2, 1);
                let hi = bus_peek(b2, (0x100 + sp3 as u16) as u16);
                final(self)@ == (CpuView {
                    pc: (hi * 256 + lo) as u16,
                    sp: sp3,
                    status: (flags & 0xef) | 0x20,
                    bus: bus_after_read(b2, (0x100 + sp3 as u16) as u16),
                    ..old(self)@
                })
            }),
            final(self)@.wf(),
            final(self)@.bus.cycles >= old(self)@.bus.cycles,
            final(self)@.bus.cycles <= old(self)@.bus.cycles + 2,
    {
        let v: u8 = self.stack_pop();
        proof {
            lemma_status_bit5(v);
        }
        self.status = (v & 0b1110_1111) | 0b0010_0000;
        let w: u16 = self.stack_pop_u16();
        self.program_counter = w;
    }

    /// ISB: increment the operand, then subtract it from the accumulator.
    fn unofficial_isb(&mut self, mode: &AddressingMode)
        requires
            old(self)@.wf(),
            !(*mode is NoneAddressing),
        ensures
            ({
                let v = wrap_add8(operand_val(old(self)@, *mode), 1);
                let s1 = znup(old(self)@.status, v);
                final(self)@ == (CpuView {
                    a: adc_value(s1, old(self)@.a, v ^ 0xff),
                    status: adc_flags(s1, old(self)@.a, v ^ 0xff),
                    bus: bus_after_rmw(old(self)@, *mode, v),
                    ..old(self)@
                })
            }),
            final(self)@.wf(),
            final(self)@.bus.cycles >= old(self)@.bus.cycles,
            final(self)@.bus.cycles <= old(self)@.bus.cycles + 2,
    {
        let data: u8 = self.inc(mode);
        self.add_to_register_a(data ^ 0xff);
    }

    /// SLO: shift the operand left, then OR it into the accumulator.
    fn unofficial_slo(&mut self, mode: &AddressingMode)
        requires
            old(self)@.wf(),
            !(*mode is NoneAddressing),
        ensures
            ({
                let m = operand_val(old(self)@, *mode);
                let v = asl_val(m);
                let s1 = znup(upd_c(old(self)@.status, m >= 0x80), v);
                final(self)@ == (CpuView {
                    a: v | old(self)@.a,
                    status: znup(s1, v | old(self)@.a),
                    bus: bus_after_rmw(old(self)@, *mode, v),
                    ..old(self)@
                })
            }),
            final(self)@.wf(),
            final(self)@.bus.cycles >= old(self)@.bus.cycles,
            final(self)@.bus.cycles <= old(self)@.bus.cycles + 2,
    {
        let data: u8 = self.asl(mode);
        let a: u8 = self.register_a;
        self.register_a = data | a;
        let v: u8 = self.register_a;
        self.update_zero_and_negative_flags(v);
    }

    /// RLA: rotate the operand left, then AND it into the accumulator.
    fn unofficial_rla(&mut self, mode: &AddressingMode)
        requires
            old(self)@.wf(),
            !(*mode is NoneAddressing),
        ensures
            ({
                let m = operand_val(old(self)@, *mode);
                let v = rol_val(m, old(self)@.status & 1 == 1);
                let s1 = znup(upd_c(old(self)@.status, m >= 0x80), v);
                final(self)@ == (CpuView {
                    a: v & old(self)@.a,
                    status: znup(s1, v & old(self)@.a),
                    bus: bus_after_rmw(old(self)@, *mode, v),
                    ..old(self)@
                })
            }),
            final(self)@.wf(),
            final(self)@.bus.cycles >= old(self)@.bus.cycles,
            final(self)@.bus.cycles <= old(self)@.bus.cycles + 2,
    {
        let data: u8 = self.rol(mode);
        let a: u8 = self.register_a;
        self.register_a = data & a;
        let v: u8 = self.register_a;
        self.update_zero_and_negative_flags(v);
    }

    /// SRE: shift the operand right, then XOR it into the accumulator.
    fn unofficial_sre(&mut self, mode: &AddressingMode)
        requires
            old(self)@.wf(),
            !(*mode is NoneAddressing),
        ensures
            ({
                let m = operand_val(old(self)@, *mode);
                let v = lsr_val(m);
                let s1 = znup(upd_c(old(self)@.status, m & 1 == 1), v);
                final(self)@ == (CpuView {
                    a: v ^ old(self)@.a,
                    status: znup(s1, v ^ old(self)@.a),
                    bus: bus_after_rmw(old(self)@, *mode, v),
                    ..old(self)@
                })
            }),
            final(self)@.wf(),
            final(self)@.bus.cycles >= old(self)@.bus.cycles,
            final(self)@.bus.cycles <= old(self)@.bus.cycles + 2,
    {
        let data: u8 = self.lsr(mode);
        let a: u8 = self.register_a;
        self.register_a = data ^ a;
        let v: u8 = self.register_a;
        self.update_zero_and_negative_flags(v);
    }

    /// RRA: rotate the operand right, then add it to the accumulator with
    /// ADC semantics.
    fn unofficial_rra(&mut self, mode: &AddressingMode)
        requires
            old(self)@.wf(),
            !(*mode is NoneAddressing),
        ensures
            ({
                let m = operand_val(old(self)@, *mode);
                let v = ror_val(m, old(self)@.status & 1 == 1);
                let s1 = znup(upd_c(old(self)@.status, m & 1 == 1), v);
                final(self)@ == (CpuView {
                    a: adc_value(s1, old(self)@.a, v),
                    status: adc_flags(s1, old(self)@.a, v),
                    bus: bus_after_rmw(old(self)@, *mode, v),
                    ..old(self)@
                })
            }),
            final(self)@.wf(),
            final(self)@.bus.cycles >= old(self)@.bus.cycles,
            final(self)@.bus.cycles <= old(self)@.bus.cycles + 2,
    {
        let data: u8 = self.ror(mode);
        self.add_to_register_a(data);
    }

    /// DCP: decrement the operand, then compare it with the accumulator.
    fn dcp(&mut self, mode: &AddressingMode)
        requires
            old(self)@.wf(),
            !(*mode is NoneAddressing),
        ensures
            ({
                let v = wrap_sub8(operand_val(old(self)@, *mode), 1);
                final(self)@ == (CpuView {
                    status: compare_status(znup(old(self)@.status, v), old(self)@.a, v),
                    bus: bus_after_rmw(old(self)@, *mode, v),
                    ..old(self)@
                })
            }),
            final(self)@.wf(),
            final(self)@.bus.cycles >= old(self)@.bus.cycles,
            final(self)@.bus.cycles <= old(self)@.bus.cycles + 2,
    {
        let v: u8 = self.dec(mode);
        let a: u8 = self.register_a;
        self.update_carry(v <= a);
        self.update_zero_and_negative_flags(wsub8(a, v));
    }

    /// AXS: X becomes (A AND X) minus the operand, with compare flags.
    fn axs(&mut self, mode: &AddressingMode)
        requires
            old(self)@.wf(),
            !(*mode is NoneAddressing),
        ensures
            ({
                let m = operand_val(old(self)@, *mode);
                let xa = old(self)@.x & old(self)@.a;
                final(self)@ == (CpuView {
                    x: wrap_sub8(xa, m),
                    status: compare_status(old(self)@.status, xa, m),
                    bus: bus_after_operand_read(old(self)@, *mode),
                    ..old(self)@
                })
            }),
            final(self)@.wf(),
            final(self)@.bus.cycles >= old(self)@.bus.cycles,
            final(self)@.bus.cycles <= old(self)@.bus.cycles + 2,
    {
        let (addr, _) = self.get_operand_address(mode);
        let data: u8 = self.mem_read(addr);
        let x_and_a: u8 = self.register_x & self.register_a;
        let result: u8 = wsub8(x_and_a, data);
        self.update_carry(data <= x_and_a);
        self.update_zero_and_negative_flags(result);
        self.register_x = result;
    }

    /// ARR: AND, rotate the accumulator right, then C from bit 6 and V from
    /// bits 5 and 6 of the result.
    fn arr(&mut self, mode: &AddressingMode)
        requires
            old(self)@.wf(),
            !(*mode is NoneAddressing),
        ensures
            ({
                let m = operand_val(old(self)@, *mode);
                let a1 = m & old(self)@.a;
                let s1 = znup(old(self)@.status, a1);
                let v = ror_val(a1, s1 & 1 == 1);
                let s2 = znup(upd_c(s1, a1 & 1 == 1), v);
                let b5 = (v / 32) % 2;
                let b6 = (v / 64) % 2;
                final(self)@ == (CpuView {
                    a: v,
                    status: znup(upd_v(upd_c(s2, b6 == 1), b5 ^ b6 == 1), v),
                    bus: bus_after_operand_read(old(self)@, *mode),
                    ..old(self)@
                })
            }),
            final(self)@.wf(),
            final(self)@.bus.cycles >= old(self)@.bus.cycles,
            final(self)@.bus.cycles <= old(self)@.bus.cycles + 2,
    {
        let (addr, _) = self.get_operand_address(mode);
        let data: u8 = self.mem_read(addr);
        let a: u8 = self.register_a;
        self.set_register_a(data & a);
        self.ror_accumulator();
        let result: u8 = self.register_a;
        let bit_5: u8 = (result / 32) % 2;
        let bit_6: u8 = (result / 64) % 2;
        self.update_carry(bit_6 == 1);
        self.update_overflow(bit_5 ^ bit_6 == 1);
        self.update_zero_and_negative_flags(result);
    }

    /// ANC: AND, with the carry mirroring the negative flag.
    fn anc(&mut self, mode: &AddressingMode)
        requires
            old(self)@.wf(),
            !(*mode is NoneAddressing),
        ensures
            ({
                let a1 = operand_val(old(self)@, *mode) & old(self)@.a;
                final(self)@ == (CpuView {
                    a: a1,
                    status: upd_c(znup(old(self)@.status, a1), a1 >= 0x80),
                    bus: bus_after_operand_read(old(self)@, *mode),
                    ..old(self)@
                })
            }),
            final(self)@.wf(),
            final(self)@.bus.cycles >= old(self)@.bus.cycles,
            final(self)@.bus.cycles <= old(self)@.bus.cycles + 2,
    {
        let (addr, _) = self.get_operand_address(mode);
        let data: u8 = self.mem_read(addr);
        let a: u8 = self.register_a;
        self.set_register_a(data & a);
        let v: u8 = self.register_a;
        self.update_carry(v >= 0x80);
    }

    /// ALR: AND, then shift the accumulator right.
    fn alr(&mut self, mode: &AddressingMode)
        requires
            old(self)@.wf(),
            !(*mode is NoneAddressing),
        ensures
            ({
                let a1 = operand_val(old(self)@, *mode) & old(self)@.a;
                let s1 = znup(old(self)@.status, a1);
                final(self)@ == (CpuView {
                    a: lsr_val(a1),
                    status: znup(upd_c(s1, a1 & 1 == 1), lsr_val(a1)),
                    bus: bus_after_operand_read(old(self)@, *mode),
                    ..old(self)@
                })
            }),
            final(self)@.wf(),
            final(self)@.bus.cycles >= old(self)@.bus.cycles,
            final(self)@.bus.cycles <= old(self)@.bus.cycles + 2,
    {
        let (addr, _) = self.get_operand_address(mode);
        let data: u8 = self.mem_read(addr);
        let a: u8 = self.register_a;
        self.set_register_a(data & a);
        self.lsr_accumulator();
    }

    /// LAX: load the operand into both A and X.
    fn lax(&mut self, mode: &AddressingMode)
        requires
            old(self)@.wf(),
            !(*mode is NoneAddressing),
        ensures
            ({
                let v = operand_val(old(self)@, *mode);
                final(self)@ == (CpuView {
                    a: v,
                    x: v,
                    status: znup(old(self)@.status, v),
                    bus: bus_after_operand_read(old(self)@, *mode),
                    ..old(self)@
                })
            }),
            final(self)@.wf(),
            final(self)@.bus.cycles >= old(self)@.bus.cycles,
            final(self)@.bus.cycles <= old(self)@.bus.cycles + 2,
    {
        let (addr, _) = self.get_operand_address(mode);
        let data: u8 = self.mem_read(addr);
        self.register_a = data;
        self.update_zero_and_negative_flags(data);
        self.register_x = data;
    }

    /// SAX stores A AND X; no flags.
    fn sax(&mut self, mode: &AddressingMode)
        requires
            old(self)@.wf(),
            !(*mode is NoneAddressing),
        ensures
            final(self)@ == (CpuView {
                bus: bus_after_store(old(self)@, *mode, old(self)@.a & old(self)@.x),
                ..old(self)@
            }),
            final(self)@.wf(),
            final(self)@.bus.cycles >= old(self)@.bus.cycles,
            final(self)@.bus.cycles <= old(self)@.bus.cycles + 2,
    {
        let (addr, _) = self.get_operand_address(mode);
        let data: u8 = self.register_a & self.register_x;
        self.mem_write(addr, data);
    }

    /// LXA: load into the accumulator, then copy it into X.
    fn lxa(&mut self, mode: &AddressingMode)
        requires
            old(self)@.wf(),
            !(*mode is NoneAddressing),
        ensures
            ({
                let v = operand_val(old(self)@, *mode);
                final(self)@ == (CpuView {
                    a: v,
                    x: v,
                    status: znup(znup(old(self)@.status, v), v),
                    bus: maybe_tick(
                        bus_after_operand_read(old(self)@, *mode),
                        operand_crossed(old(self)@, *mode),
                    ),
                    ..old(self)@
                })
            }),
            final(self)@.wf(),
            final(self)@.bus.cycles >= old(self)@.bus.cycles,
            final(self)@.bus.cycles <= old(self)@.bus.cycles + 2,
    {
        self.lda(mode);
        self.tax();
    }

    /// XAA: copy X into the accumulator, then AND with the operand.
    fn xaa(&mut self, mode: &AddressingMode)
        requires
            old(self)@.wf(),
            !(*mode is NoneAddressing),
        ensures
            ({
                let c1 = CpuView {
                    a: old(self)@.x,
                    status: znup(old(self)@.status, old(self)@.x),
                    ..old(self)@
                };
                let m = operand_val(c1, *mode);
                final(self)@ == (CpuView {
                    a: m & old(self)@.x,
                    status: znup(c1.status, m & old(self)@.x),
                    bus: bus_after_operand_read(c1, *mode),
                    ..c1
                })
            }),
            final(self)@.wf(),
            final(self)@.bus.cycles >= old(self)@.bus.cycles,
            final(self)@.bus.cycles <= old(self)@.bus.cycles + 2,
    {
        let x: u8 = self.register_x;
        self.set_register_a(x);
        let (addr, _) = self.get_operand_address(mode);
        let data: u8 = self.mem_read(addr);
        let a: u8 = self.register_a;
        self.set_register_a(data & a);
    }

    /// TAS: the stack pointer becomes A AND X, and (that value AND one more
    /// than the target's page) is stored at absolute-plus-Y.
    fn tas(&mut self)
        requires
            old(self)@.wf(),
        ensures
            ({
                let sp1 = old(self)@.a & old(self)@.x;
                let w = read16_val(old(self)@.bus, old(self)@.pc);
                let b1 = read16_next(old(self)@.bus, old(self)@.pc);
                let t = wrap_add16(w, old(self)@.y as u16);
                let v = wrap_add8((t / 256) as u8, 1) & sp1;
                final(self)@ == (CpuView { sp: sp1, bus: bus_after_write(b1, t, v), ..old(self)@ })
            }),
            final(self)@.wf(),
            final(self)@.bus.cycles >= old(self)@.bus.cycles,
            final(self)@.bus.cycles <= old(self)@.bus.cycles + 2,
    {
        let data: u8 = self.register_a & self.register_x;
        self.stack_pointer = data;
        let w: u16 = self.mem_read_u16(self.program_counter);
        let t: u16 = wadd16(w, self.register_y as u16);
        let v: u8 = wadd8((t / 256) as u8, 1) & data;
        self.mem_write(t, v);
    }

    /// LAS: the operand AND the stack pointer lands in A, X and the stack
    /// pointer itself.
    fn las(&mut self, mode: &AddressingMode)
        requires
            old(self)@.wf(),
            !(*mode is NoneAddressing),
        ensures
            ({
                let v = operand_val(old(self)@, *mode) & old(self)@.sp;
                final(self)@ == (CpuView {
                    a: v,
                    x: v,
                    sp: v,
                    status: znup(old(self)@.status, v),
                    bus: maybe_tick(
                        bus_after_operand_read(old(self)@, *mode),
                        operand_crossed(old(self)@, *mode),
                    ),
                    ..old(self)@
                })
            }),
            final(self)@.wf(),
            final(self)@.bus.cycles >= old(self)@.bus.cycles,
            final(self)@.bus.cycles <= old(self)@.bus.cycles + 2,
    {
        let (addr, page_cross) = self.get_operand_address(mode);
        let data: u8 = self.mem_read(addr);
        let sp: u8 = self.stack_pointer;
        let v: u8 = data & sp;
        self.register_a = v;
        self.register_x = v;
        self.stack_pointer = v;
        self.update_zero_and_negative_flags(v);
        if page_cross {
            self.bus.tick(1);
        }
    }

    /// AHX via (zero page),Y: stores A AND X AND the target's page.
    fn ahx_indirect_y(&mut self)
        requires
            old(self)@.wf(),
        ensures
            ({
                let pos = bus_peek(old(self)@.bus, old(self)@.pc);
                let b1 = bus_after_read(old(self)@.bus, old(self)@.pc);
                let w = read16_val(b1, pos as u16);
                let b2 = read16_next(b1, pos as u16);
                let t = wrap_add16(w, old(self)@.y as u16);
                let v = old(self)@.a & old(self)@.x & ((t / 256) as u8);
                final(self)@ == (CpuView { bus: bus_after_write(b2, t, v), ..old(self)@ })
            }),
            final(self)@.wf(),
            final(self)@.bus.cycles >= old(self)@.bus.cycles,
            final(self)@.bus.cycles <= old(self)@.bus.cycles + 2,
    {
        let pos: u8 = self.mem_read(self.program_counter);
        let w: u16 = self.mem_read_u16(pos as u16);
        let t: u16 = wadd16(w, self.register_y as u16);
        let v: u8 = self.register_a & self.register_x & ((t / 256) as u8);
        self.mem_write(t, v);
    }

    /// AHX via absolute,Y.
    fn ahx_absolute_y(&mut self)
        requires
            old(self)@.wf(),
        ensures
            ({
                let w = read16_val(old(self)@.bus, old(self)@.pc);
                let b1 = read16_next(old(self)@.bus, old(self)@.pc);
                let t = wrap_add16(w, old(self)@.y as u16);
                let v = old(self)@.a & old(self)@.x & ((t / 256) as u8);
                final(self)@ == (CpuView { bus: bus_after_write(b1, t, v), ..old(self)@ })
            }),
            final(self)@.wf(),
            final(self)@.bus.cycles >= old(self)@.bus.cycles,
            final(self)@.bus.cycles <= old(self)@.bus.cycles + 2,
    {
        let w: u16 = self.mem_read_u16(self.program_counter);
        let t: u16 = wadd16(w, self.register_y as u16);
        let v: u8 = self.register_a & self.register_x & ((t / 256) as u8);
        self.mem_write(t, v);
    }

    /// SHX: stores X AND (target page plus one) at absolute-plus-Y.
    fn shx(&mut self)
        requires
            old(self)@.wf(),
        ensures
            ({
                let w = read16_val(old(self)@.bus, old(self)@.pc);
                let b1 = read16_next(old(self)@.bus, old(self)@.pc);
                let t = wrap_add16(w, old(self)@.y as u16);
                let v = old(self)@.x & wrap_add8((t / 256) as u8, 1);
                final(self)@ == (CpuView { bus: bus_after_write(b1, t, v), ..old(self)@ })
            }),
            final(self)@.wf(),
            final(self)@.bus.cycles >= old(self)@.bus.cycles,
            final(self)@.bus.cycles <= old(self)@.bus.cycles + 2,
    {
        let w: u16 = self.mem_read_u16(self.program_counter);
        let t: u16 = wadd16(w, self.register_y as u16);
        let v: u8 = self.register_x & wadd8((t / 256) as u8, 1);
        self.mem_write(t, v);
    }

    /// SHY: stores Y AND (target page plus one) at absolute-plus-X.
    fn shy(&mut self)
        requires
            old(self)@.wf(),
        ensures
            ({
                let w = read16_val(old(self)@.bus, old(self)@.pc);
                let b1 = read16_next(old(self)@.bus, old(self)@.pc);
                let t = wrap_add16(w, old(self)@.x as u16);
                let v = old(self)@.y & wrap_add8((t / 256) as u8, 1);
                final(self)@ == (CpuView { bus: bus_after_write(b1, t, v), ..old(self)@ })
            }),
            final(self)@.wf(),
            final(self)@.bus.cycles >= old(self)@.bus.cycles,
            final(self)@.bus.cycles <= old(self)@.bus.cycles + 2,
    {
        let w: u16 = self.mem_read_u16(self.program_counter);
        let t: u16 = wadd16(w, self.register_x as u16);
        let v: u8 = self.register_y & wadd8((t / 256) as u8, 1);
        self.mem_write(t, v);
    }

    /// Multi-byte NOP: resolves the operand address (charging the page-cross
    /// penalty) and discards the result without reading it.
    fn nop_read(&mut self, mode: &AddressingMode)
        requires
            old(self)@.wf(),
            !(*mode is NoneAddressing),
        ensures
            final(self)@ == (CpuView {
                bus: maybe_tick(
                    resolve_operand(old(self)@, *mode).bus,
                    operand_crossed(old(self)@, *mode),
                ),
                ..old(self)@
            }),
            final(self)@.wf(),
            final(self)@.bus.cycles >= old(self)@.bus.cycles,
            final(self)@.bus.cycles <= old(self)@.bus.cycles + 2,
    {
        let (_, page_cross) = self.get_operand_address(mode);
        if page_cross {
            self.bus.tick(1);
        }
    }

    /// Interrupt entry: push the program counter (high byte first), push the
    /// status with B cleared per the descriptor's mask, set
    /// interrupt-disable, charge the entry cycles, and load the vector.
    fn interrupt(&mut self, interrupt: Interrupt)
        requires
            old(self)@.wf(),
        ensures
            final(self)@ == spec_interrupt(old(self)@, interrupt),
            final(self)@.wf(),
            final(self)@.bus.cycles >= old(self)@.bus.cycles,
    {
        let pc: u16 = self.program_counter;
        self.stack_push_u16(pc);
        let flag: u8 = (self.status & 0b1110_1111) | interrupt.b_flag_mask;
        self.stack_push(flag);
        proof {
            lemma_status_bit5(self.status);
        }
        self.status = self.status | 0b0000_0100;
        self.bus.tick(interrupt.cpu_cycles);
        let v: u16 = self.mem_read_u16(interrupt.vector_addr);
        self.program_counter = v;
    }

    /// Reset: registers cleared, stack pointer at 0xfd, interrupt-disable
    /// and the always-set bit up, and the program counter loaded from the
    /// reset vector at 0xfffc.
    pub fn reset(&mut self)
        requires
            old(self)@.wf(),
        ensures
            final(self)@ == spec_reset(old(self)@),
            final(self)@.wf(),
            final(self)@.bus.cycles >= old(self)@.bus.cycles,
            final(self)@.bus.cycles <= old(self)@.bus.cycles + 2,
    {
        proof {
            assert(0x24u8 & 0x20 == 0x20) by (bit_vector);
        }
        self.register_a = 0;
        self.register_x = 0;
        self.register_y = 0;
        self.stack_pointer = 0xfd;
        self.status = 0b0010_0100;
        let pc: u16 = self.mem_read_u16(0xfffc);
        self.program_counter = pc;
    }

    fn ror(&mut self, mode: &AddressingMode) -> (r: u8)
        requires
            old(self)@.wf(),
            !(*mode is NoneAddressing),
        ensures
            ({
                let m = operand_val(old(self)@, *mode);
                let v = ror_val(m, old(self)@.status & 1 == 1);
                r == v && final(self)@ == (CpuView {
                    status: znup(upd_c(old(self)@.status, m & 1 == 1), v),
                    bus: bus_after_rmw(old(self)@, *mode, v),
                    ..old(self)@
                })
            }),
            final(self)@.wf(),
            final(self)@.bus.cycles >= old(self)@.bus.cycles,
            final(self)@.bus.cycles <= old(self)@.bus.cycles + 2,
    {
        let (addr, _) = self.get_operand_address(mode);
        let data: u8 = self.mem_read(addr);
        let old_carry: bool = self.status & 1 == 1;
        self.update_carry(data & 1 == 1);
        let v: u8 = if old_carry {
            data / 2 + 128
        } else {
            data / 2
        };
        self.mem_write(addr, v);
        self.update_zero_and_negative_flags(v);
        v
    }

    /// Writes a program into work RAM at 0x0600, byte for byte, touching
    /// nothing else.
    pub fn load(&mut self, program: Vec<u8>)
        requires
            old(self)@.wf(),
            program@.len() <= 0x200,
        ensures
            final(self)@.wf(),
            final(self)@.bus.cycles >= old(self)@.bus.cycles,
            final(self)@.bus.cycles <= old(self)@.bus.cycles + 2,
            forall|i: int|
                0 <= i < program@.len() ==> final(self)@.bus.ram[0x600 + i] == program@[i],
            forall|j: int|
                0 <= j < 2048 && !(0x600 <= j < 0x600 + program@.len()) ==> final(self)@.bus.ram[j]
                    == old(self)@.bus.ram[j],
            final(self)@ == (CpuView {
                bus: BusView { ram: final(self)@.bus.ram, ..old(self)@.bus },
                ..old(self)@
            }),
            final(self)@ == spec_load(old(self)@, program@),
    {
        let n: usize = program.len();
        let mut i: usize = 0;
        while i < n
            invariant
                i <= n,
                n == program@.len(),
                n <= 0x200,
                self@.wf(),
                forall|k: int| 0 <= k < i ==> self@.bus.ram[0x600 + k] == program@[k],
                forall|j: int|
                    0 <= j < 2048 && !(0x600 <= j < 0x600 + i) ==> self@.bus.ram[j]
                        == old(self)@.bus.ram[j],
                self@ == (CpuView {
                    bus: BusView { ram: self@.bus.ram, ..old(self)@.bus },
                    ..old(self)@
                }),
            decreases n - i,
        {
            let addr: u16 = 0x600 + i as u16;
            let b: u8 = program[i];
            self.mem_write(addr, b);
            proof {
                assert(ram_index(addr) == 0x600 + i) by (nonlinear_arith)
                    requires addr == 0x600 + i && i < 0x200;
            }
            i = i + 1;
        }
        proof {
            assert(self@.bus.ram =~= spec_load_ram(old(self)@.bus.ram, program@));
        }
    }

    /// One iteration of the fetch-decode-execute loop: consume a pending
    /// NMI first, then fetch, dispatch, charge the base cycles, and advance
    /// the program counter by the instruction's length unless the handler
    /// wrote it. Reports `Break` exactly when the fetched opcode is BRK.
    /// Executes the already-fetched instruction `code` (never BRK, which the
    /// step handles itself). A handler may write the program counter only
    /// for the opcodes `spec_writes_pc` names.
    fn dispatch(&mut self, code: u8, op: OpCode)
        requires
            old(self)@.wf(),
            op == spec_opcode(code),
            code != 0,
        ensures
            final(self)@.wf(),
            final(self)@.bus.cycles >= old(self)@.bus.cycles,
            final(self)@.bus.cycles <= old(self)@.bus.cycles + 2,
            !spec_writes_pc(code) ==> final(self)@.pc == old(self)@.pc,
            spec_branch_not_taken(code, old(self)@.status) ==> final(self)@.pc == old(self)@.pc,
            final(self)@ == spec_dispatch(old(self)@, code),
    {
        if self.dispatch_transfer(code, op) {
            return;
        }
        if self.dispatch_alu(code, op) {
            return;
        }
        if self.dispatch_shift_step(code, op) {
            return;
        }
        if self.dispatch_flow(code, op) {
            return;
        }
        self.dispatch_undocumented(code, op);
    }

    /// Loads, stores, register transfers, flag writes, stack pushes and
    /// pulls, and the one-byte NOP.
    #[verifier::rlimit(100)]
    fn dispatch_transfer(&mut self, code: u8, op: OpCode) -> (handled: bool)
        requires
            old(self)@.wf(),
            op == spec_opcode(code),
            code != 0,
        ensures
            final(self)@.wf(),
            final(self)@.bus.cycles >= old(self)@.bus.cycles,
            final(self)@.bus.cycles <= old(self)@.bus.cycles + 2,
            !spec_writes_pc(code) ==> final(self)@.pc == old(self)@.pc,
            spec_branch_not_taken(code, old(self)@.status) ==> final(self)@.pc == old(self)@.pc,
            !handled ==> *final(self) == *old(self),
            handled ==> final(self)@ == spec_dispatch(old(self)@, code),
            handled == transfer_op(code),
    {
        match code {
            0xa9 | 0xa5 | 0xb5 | 0xad | 0xbd | 0xb9 | 0xa1 | 0xb1 => {
                self.lda(&op.mode);
                true
            },
            0xa2 | 0xa6 | 0xb6 | 0xae | 0xbe => {
                self.ldx(&op.mode);
                true
            },
            0xa0 | 0xa4 | 0xb4 | 0xac | 0xbc => {
                self.ldy(&op.mode);
                true
            },
            0x85 | 0x95 | 0x8d | 0x9d | 0x99 | 0x81 | 0x91 => {
                self.sta(&op.mode);
                true
            },
            0x86 | 0x96 | 0x8e => {
                self.stx(&op.mode);
                true
            },
            0x84 | 0x94 | 0x8c => {
                self.sty(&op.mode);
                true
            },
            0xaa => {
                self.tax();
                true
            },
            0xa8 => {
                self.tay();
                true
            },
            0xba => {
                self.tsx();
                true
            },
            0x8a => {
                self.txa();
                true
            },
            0x9a => {
                self.txs();
                true
            },
            0x98 => {
                self.tya();
                true
            },
            0xd8 => {
                proof {
                    lemma_status_bit5(self.status);
                }
                self.status = self.status & 0b1111_0111;
                true
            },
            0x58 => {
                proof {
                    lemma_status_bit5(self.status);
                }
                self.status = self.status & 0b1111_1011;
                true
            },
            0xb8 => {
                self.update_overflow(false);
                true
            },
            0x18 => {
                self.clear_carry_flag();
                true
            },
            0x38 => {
                self.set_carry_flag();
                true
            },
            0x78 => {
                proof {
                    lemma_status_bit5(self.status);
                }
                self.status = self.status | 0b0000_0100;
                true
            },
            0xf8 => {
                proof {
                    lemma_status_bit5(self.status);
                }
                self.status = self.status | 0b0000_1000;
                true
            },
            0x48 => {
                let a: u8 = self.register_a;
                self.stack_push(a);
                true
            },
            0x68 => {
                self.pla();
                true
            },
            0x08 => {
                self.php();
                true
            },
            0x28 => {
                self.plp();
                true
            },
            0xea => true,
            _ => false,
        }
    }

    /// Arithmetic, logic, shifts, increments, compares, BIT, branches,
    /// jumps and returns.
    #[verifier::rlimit(100)]
    fn dispatch_alu(&mut self, code: u8, op: OpCode) -> (handled: bool)
        requires
            old(self)@.wf(),
            op == spec_opcode(code),
            code != 0,
        ensures
            final(self)@.wf(),
            final(self)@.bus.cycles >= old(self)@.bus.cycles,
            final(self)@.bus.cycles <= old(self)@.bus.cycles + 2,
            !spec_writes_pc(code) ==> final(self)@.pc == old(self)@.pc,
            spec_branch_not_taken(code, old(self)@.status) ==> final(self)@.pc == old(self)@.pc,
            !handled ==> *final(self) == *old(self),
            handled ==> final(self)@ == spec_dispatch(old(self)@, code),
            handled == alu_op(code),
    {
        match code {
            0x69 | 0x65 | 0x75 | 0x6d | 0x7d | 0x79 | 0x61 | 0x71 => {
                self.adc(&op.mode);
                true
            },
            0xe9 | 0xe5 | 0xf5 | 0xed | 0xfd | 0xf9 | 0xe1 | 0xf1 => {
                self.sbc(&op.mode);
                true
            },
            0x29 | 0x25 | 0x35 | 0x2d | 0x3d | 0x39 | 0x21 | 0x31 => {
                self.and(&op.mode);
                true
            },
            0x49 | 0x45 | 0x55 | 0x4d | 0x5d | 0x59 | 0x41 | 0x51 => {
                self.eor(&op.mode);
                true
            },
            0x09 | 0x05 | 0x15 | 0x0d | 0x1d | 0x19 | 0x01 | 0x11 => {
                self.ora(&op.mode);
                true
            },
            0xc9 | 0xc5 | 0xd5 | 0xcd | 0xdd | 0xd9 | 0xc1 | 0xd1 => {
                let a: u8 = self.register_a;
                self.compare(&op.mode, a);
                true
            },
            0xc0 | 0xc4 | 0xcc => {
                let y: u8 = self.register_y;
                self.compare(&op.mode, y);
                true
            },
            0xe0 | 0xe4 | 0xec => {
                let x: u8 = self.register_x;
                self.compare(&op.mode, x);
                true
            },
            _ => false,
        }
    }

    /// Shifts, rotates, increments, decrements and BIT.
    #[verifier::rlimit(100)]
    fn dispatch_shift_step(&mut self, code: u8, op: OpCode) -> (handled: bool)
        requires
            old(self)@.wf(),
            op == spec_opcode(code),
            code != 0,
        ensures
            final(self)@.wf(),
            final(self)@.bus.cycles >= old(self)@.bus.cycles,
            final(self)@.bus.cycles <= old(self)@.bus.cycles + 2,
            !spec_writes_pc(code) ==> final(self)@.pc == old(self)@.pc,
            spec_branch_not_taken(code, old(self)@.status) ==> final(self)@.pc == old(self)@.pc,
            !handled ==> *final(self) == *old(self),
            handled ==> final(self)@ == spec_dispatch(old(self)@, code),
            handled == shift_step_op(code),
    {
        match code {
            0x4a => {
                self.lsr_accumulator();
                true
            },
            0x46 | 0x56 | 0x4e | 0x5e => {
                self.lsr(&op.mode);
                true
            },
            0x0a => {
                self.asl_accumulator();
                true
            },
            0x06 | 0x16 | 0x0e | 0x1e => {
                self.asl(&op.mode);
                true
            },
            0x2a => {
                self.rol_accumulator();
                true
            },
            0x26 | 0x36 | 0x2e | 0x3e => {
                self.rol(&op.mode);
                true
            },
            0x6a => {
                self.ror_accumulator();
                true
            },
            0x66 | 0x76 | 0x6e | 0x7e => {
                self.ror(&op.mode);
                true
            },
            0xe6 | 0xf6 | 0xee | 0xfe => {
                self.inc(&op.mode);
                true
            },
            0xe8 => {
                self.inx();
                true
            },
            0xc8 => {
                self.iny();
                true
            },
            0xc6 | 0xd6 | 0xce | 0xde => {
                self.dec(&op.mode);
                true
            },
            0xca => {
                self.dex();
                true
            },
            0x88 => {
                self.dey();
                true
            },
            0x24 | 0x2c => {
                self.bit(&op.mode);
                true
            },
            _ => false,
        }
    }

    /// Jumps, calls, returns and branches.
    #[verifier::rlimit(100)]
    fn dispatch_flow(&mut self, code: u8, op: OpCode) -> (handled: bool)
        requires
            old(self)@.wf(),
            op == spec_opcode(code),
            code != 0,
        ensures
            final(self)@.wf(),
            final(self)@.bus.cycles >= old(self)@.bus.cycles,
            final(self)@.bus.cycles <= old(self)@.bus.cycles + 2,
            !spec_writes_pc(code) ==> final(self)@.pc == old(self)@.pc,
            spec_branch_not_taken(code, old(self)@.status) ==> final(self)@.pc == old(self)@.pc,
            !handled ==> *final(self) == *old(self),
            handled ==> final(self)@ == spec_dispatch(old(self)@, code),
            handled == flow_op(code),
    {
        match code {
            0x4c => {
                self.jmp_absolute();
                true
            },
            0x6c => {
                self.jmp_indirect();
                true
            },
            0x20 => {
                self.jsr();
                true
            },
            0x60 => {
                self.rts();
                true
            },
            0x40 => {
                self.rti();
                true
            },
            0xd0 => {
                let cond: bool = self.status & 0b0000_0010 == 0;
                self.branch(cond);
                true
            },
            0x70 => {
                let cond: bool = self.status & 0b0100_0000 != 0;
                self.branch(cond);
                true
            },
            0x50 => {
                let cond: bool = self.status & 0b0100_0000 == 0;
                self.branch(cond);
                true
            },
            0x10 => {
                let cond: bool = self.status & 0b1000_0000 == 0;
                self.branch(cond);
                true
            },
            0x30 => {
                let cond: bool = self.status & 0b1000_0000 != 0;
                self.branch(cond);
                true
            },
            0xf0 => {
                let cond: bool = self.status & 0b0000_0010 != 0;
                self.branch(cond);
                true
            },
            0xb0 => {
                let cond: bool = self.status & 0b0000_0001 != 0;
                self.branch(cond);
                true
            },
            0x90 => {
                let cond: bool = self.status & 0b0000_0001 == 0;
                self.branch(cond);
                true
            },
            _ => false,
        }
    }

    /// The first half of the undocumented instruction set: multi-byte NOPs
    /// and the increment, decrement and left-shift combinations; the rest is
    /// handed on.
    #[verifier::rlimit(100)]
    fn dispatch_undocumented(&mut self, code: u8, op: OpCode)
        requires
            old(self)@.wf(),
            op == spec_opcode(code),
            code != 0,
            !transfer_op(code),
            !alu_op(code),
            !shift_step_op(code),
            !flow_op(code),
        ensures
            final(self)@.wf(),
            final(self)@.bus.cycles >= old(self)@.bus.cycles,
            final(self)@.bus.cycles <= old(self)@.bus.cycles + 2,
            !spec_writes_pc(code) ==> final(self)@.pc == old(self)@.pc,
            spec_branch_not_taken(code, old(self)@.status) ==> final(self)@.pc == old(self)@.pc,
            final(self)@ == spec_dispatch(old(self)@, code),
    {
        match code {
            0x04 | 0x44 | 0x64 | 0x14 | 0x34 | 0x54 | 0x74 | 0xd4 | 0xf4 | 0x0c | 0x1c | 0x3c
                | 0x5c | 0x7c | 0xdc | 0xfc => self.nop_read(&op.mode),
            0xa7 | 0xb7 | 0xaf | 0xbf | 0xa3 | 0xb3 => self.lax(&op.mode),
            0x87 | 0x97 | 0x8f | 0x83 => self.sax(&op.mode),
            0xeb => self.sbc(&op.mode),
            0xc7 | 0xd7 | 0xcf | 0xdf | 0xdb | 0xd3 | 0xc3 => self.dcp(&op.mode),
            0xe7 | 0xf7 | 0xef | 0xff | 0xfb | 0xe3 | 0xf3 => self.unofficial_isb(&op.mode),
            0x07 | 0x17 | 0x0f | 0x1f | 0x1b | 0x03 | 0x13 => self.unofficial_slo(&op.mode),
            _ => {
                self.dispatch_unstable(code, op);
            },
        }
    }

    /// The rotate and shift combinations and the immediate-mode
    /// undocumented arithmetic; the unstable instructions are handed on.
    #[verifier::rlimit(100)]
    fn dispatch_unstable(&mut self, code: u8, op: OpCode)
        requires
            old(self)@.wf(),
            op == spec_opcode(code),
            code != 0,
            !transfer_op(code),
            !alu_op(code),
            !shift_step_op(code),
            !flow_op(code),
            !undoc_rmw_op(code),
        ensures
            final(self)@.wf(),
            final(self)@.bus.cycles >= old(self)@.bus.cycles,
            final(self)@.bus.cycles <= old(self)@.bus.cycles + 2,
            !spec_writes_pc(code) ==> final(self)@.pc == old(self)@.pc,
            spec_branch_not_taken(code, old(self)@.status) ==> final(self)@.pc == old(self)@.pc,
            final(self)@ == spec_dispatch(old(self)@, code),
    {
        match code {
            0x27 | 0x37 | 0x2f | 0x3f | 0x3b | 0x33 | 0x23 => self.unofficial_rla(&op.mode),
            0x47 | 0x57 | 0x4f | 0x5f | 0x5b | 0x43 | 0x53 => self.unofficial_sre(&op.mode),
            0x67 | 0x77 | 0x6f | 0x7f | 0x7b | 0x63 | 0x73 => self.unofficial_rra(&op.mode),
            0xcb => self.axs(&op.mode),
            0x6b => self.arr(&op.mode),
            0x0b | 0x2b => self.anc(&op.mode),
            0x4b => self.alr(&op.mode),
            _ => {
                self.dispatch_unstable_stores(code, op);
            },
        }
    }

    /// The unstable immediate loads LXA and XAA; the address-high stores
    /// are handed on.
    #[verifier::rlimit(100)]
    fn dispatch_unstable_stores(&mut self, code: u8, op: OpCode)
        requires
            old(self)@.wf(),
            op == spec_opcode(code),
            code != 0,
            !transfer_op(code),
            !alu_op(code),
            !shift_step_op(code),
            !flow_op(code),
            !undoc_rmw_op(code),
            !undoc_imm_op(code),
        ensures
            final(self)@.wf(),
            final(self)@.bus.cycles >= old(self)@.bus.cycles,
            final(self)@.bus.cycles <= old(self)@.bus.cycles + 2,
            !spec_writes_pc(code) ==> final(self)@.pc == old(self)@.pc,
            spec_branch_not_taken(code, old(self)@.status) ==> final(self)@.pc == old(self)@.pc,
            final(self)@ == spec_dispatch(old(self)@, code),
    {
        match code {
            0xab => self.lxa(&op.mode),
            0x8b => self.xaa(&op.mode),
            _ => {
                self.dispatch_high_stores(code, op);
            },
        }
    }

    /// The address-high stores (TAS, LAS, AHX, SHX, SHY). The bytes the
    /// final arm catches are the halt opcodes and the implied undocumented
    /// NOPs, which do nothing.
    #[verifier::rlimit(100)]
    fn dispatch_high_stores(&mut self, code: u8, op: OpCode)
        requires
            old(self)@.wf(),
            op == spec_opcode(code),
            code != 0,
            !transfer_op(code),
            !alu_op(code),
            !shift_step_op(code),
            !flow_op(code),
            !undoc_rmw_op(code),
            !undoc_imm_op(code),
            !unstable_load_op(code),
        ensures
            final(self)@.wf(),
            final(self)@.bus.cycles >= old(self)@.bus.cycles,
            final(self)@.bus.cycles <= old(self)@.bus.cycles + 2,
            !spec_writes_pc(code) ==> final(self)@.pc == old(self)@.pc,
            spec_branch_not_taken(code, old(self)@.status) ==> final(self)@.pc == old(self)@.pc,
            final(self)@ == spec_dispatch(old(self)@, code),
    {
        match code {
            0x9b => self.tas(),
            0xbb => self.las(&op.mode),
            0x93 => self.ahx_indirect_y(),
            0x9f => self.ahx_absolute_y(),
            0x9e => self.shx(),
            0x9c => self.shy(),
            _ => {
                self.dispatch_halt_or_nop(code, op);
            },
        }
    }

    /// The bytes no dispatcher claims: the halt opcodes and the implied
    /// undocumented NOPs. They execute nothing, which is exactly what the
    /// transition function says of them.
    #[verifier::rlimit(100)]
    fn dispatch_halt_or_nop(&mut self, code: u8, op: OpCode)
        requires
            old(self)@.wf(),
            op == spec_opcode(code),
            code != 0,
            !transfer_op(code),
            !alu_op(code),
            !shift_step_op(code),
            !flow_op(code),
            !undoc_rmw_op(code),
            !undoc_imm_op(code),
            !unstable_load_op(code),
            !high_store_op(code),
        ensures
            final(self)@.wf(),
            final(self)@.bus.cycles >= old(self)@.bus.cycles,
            final(self)@.bus.cycles <= old(self)@.bus.cycles + 2,
            !spec_writes_pc(code) ==> final(self)@.pc == old(self)@.pc,
            spec_branch_not_taken(code, old(self)@.status) ==> final(self)@.pc == old(self)@.pc,
            final(self)@ == spec_dispatch(old(self)@, code),
    {
    }

    /// One iteration of the fetch-decode-execute loop: consume a pending
    /// NMI first, then fetch, dispatch, charge the base cycles, and advance
    /// the program counter by the instruction's length unless the handler
    /// wrote it. Reports `Break` exactly when the fetched opcode is BRK.
    /// Fetch, decode, execute, charge the base cycles, and advance the
    /// program counter by the instruction's length when the handler left it
    /// alone; any pending NMI has already been serviced.
    #[verifier::rlimit(100)]
    fn fetch_and_execute(&mut self) -> (outcome: StepOutcome)
        requires
            old(self)@.wf(),
        ensures
            final(self)@.wf(),
            final(self)@ == spec_fetch_exec(old(self)@),
            (outcome is Break) <==> bus_peek(old(self)@.bus, old(self)@.pc) == 0,
            final(self)@.bus.cycles >= old(self)@.bus.cycles,
            ({
                let code = bus_peek(old(self)@.bus, old(self)@.pc);
                &&& (code != 0 && old(self)@.bus.cycles + spec_opcode(code).cycles + 2
                    <= u64::MAX ==> old(self)@.bus.cycles + spec_opcode(code).cycles
                    <= final(self)@.bus.cycles <= old(self)@.bus.cycles + spec_opcode(
                    code,
                ).cycles + 2)
                &&& (!spec_writes_pc(code) ==> final(self)@.pc == wrap_add16(
                    old(self)@.pc,
                    spec_opcode(code).len as u16,
                ))
                &&& (spec_branch_not_taken(code, old(self)@.status) ==> final(self)@.pc
                    == wrap_add16(old(self)@.pc, 2))
            }),
    {
        let pc0: u16 = self.program_counter;
        let code: u8 = self.mem_read(pc0);
        self.program_counter = wadd16(pc0, 1);
        let pc_state: u16 = self.program_counter;
        let op: OpCode = opcode_lookup(code);
        if code == 0 {
            return StepOutcome::Break;
        }
        self.dispatch(code, op);
        self.bus.tick(op.cycles);
        if pc_state == self.program_counter {
            self.program_counter = wadd16(pc_state, (op.len - 1) as u16);
        }
        proof {
            lemma_wrap_chain(pc0, op.len);
        }
        StepOutcome::Continue
    }

    pub fn step(&mut self) -> (outcome: StepOutcome)
        requires
            old(self)@.wf(),
        ensures
            final(self)@.wf(),
            final(self)@ == spec_step(old(self)@),
            (outcome is Break) <==> spec_step_breaks(old(self)@),
            final(self)@.bus.cycles >= old(self)@.bus.cycles,
            old(self)@.bus.ppu.nmi_interrupt is None ==> ({
                let code = bus_peek(old(self)@.bus, old(self)@.pc);
                &&& ((outcome is Break) <==> code == 0)
                &&& (code != 0 && old(self)@.bus.cycles + spec_opcode(code).cycles + 2
                    <= u64::MAX ==> old(self)@.bus.cycles + spec_opcode(code).cycles
                    <= final(self)@.bus.cycles <= old(self)@.bus.cycles + spec_opcode(
                    code,
                ).cycles + 2)
                &&& (code == 0 ==> final(self)@ == (CpuView {
                    pc: wrap_add16(old(self)@.pc, 1),
                    bus: bus_after_read(old(self)@.bus, old(self)@.pc),
                    ..old(self)@
                }))
                &&& (!spec_writes_pc(code) ==> final(self)@.pc == wrap_add16(
                    old(self)@.pc,
                    spec_opcode(code).len as u16,
                ))
                &&& (spec_branch_not_taken(code, old(self)@.status) ==> final(self)@.pc
                    == wrap_add16(old(self)@.pc, 2))
            }),
    {
        let ghost serviced = spec_service_nmi(old(self)@);
        if self.bus.poll_nmi_status().is_some() {
            let nmi: Interrupt = Interrupt::nmi();
            self.interrupt(nmi);
        }
        proof {
            assert(self@ == serviced);
            if old(self)@.bus.ppu.nmi_interrupt is None {
                assert(serviced == old(self)@);
            }
        }
        self.fetch_and_execute()
    }

    /// Runs the fetch-decode-execute loop: the final state is some number of
    /// `spec_step`s from the start, and the loop ends exactly because its
    /// last step fetched a BRK — or, failing that, because the saturating
    /// cycle counter stopped advancing (every instruction but BRK charges at
    /// least one cycle, so that takes 2^64 cycles of emulated time).
    pub fn run(&mut self)
        requires
            old(self)@.wf(),
        ensures
            final(self)@.wf(),
            final(self)@.bus.cycles >= old(self)@.bus.cycles,
            exists|n: nat|
                #![auto]
                final(self)@ == spec_run_n(old(self)@, n) && spec_run_ends(old(self)@, n),
    {
        let ghost mut steps: nat = 0nat;
        loop
            invariant
                self@.wf(),
                self@.bus.cycles >= old(self)@.bus.cycles,
                self@ == spec_run_n(old(self)@, steps),
            decreases u64::MAX - self@.bus.cycles,
        {
            let before: u64 = self.bus.cycles;
            let ghost at_entry = self@;
            let outcome: StepOutcome = self.step();
            proof {
                steps = steps + 1;
                assert(spec_run_n(old(self)@, steps) == spec_step(at_entry));
            }
            match outcome {
                StepOutcome::Break => {
                    proof {
                        assert(final(self)@ == spec_run_n(old(self)@, steps)
                            && spec_run_ends(old(self)@, steps));
                    }
                    return;
                },
                StepOutcome::Continue => {},
            }
            if self.bus.cycles <= before {
                proof {
                    assert(final(self)@ == spec_run_n(old(self)@, steps)
                        && spec_run_ends(old(self)@, steps));
                }
                return;
            }
        }
    }

    /// Loads the program at 0x0600, resets, points the program counter at
    /// it, and runs until a BRK is fetched: exactly `load`, `reset`,
    /// PC := 0x0600, `run`, as the contract states.
    pub fn load_and_run(&mut self, program: Vec<u8>)
        requires
            old(self)@.wf(),
            program@.len() <= 0x200,
        ensures
            final(self)@.wf(),
            final(self)@.bus.cycles >= old(self)@.bus.cycles,
            exists|n: nat|
                #![auto]
                final(self)@ == spec_run_n(spec_program_start(old(self)@, program@), n)
                    && spec_run_ends(spec_program_start(old(self)@, program@), n),
    {
        self.load(program);
        self.reset();
        self.program_counter = 0x0600;
        let ghost started = self@;
        self.run();
        proof {
            assert(started == spec_program_start(old(self)@, program@));
        }
    }
}

} // verus!

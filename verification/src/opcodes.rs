//! The opcode table: a total map from every opcode byte to its length in
//! bytes (opcode included), its base cycle cost, and its addressing mode.
//!
//! Page-cross and branch-taken penalties are not baked into the base cost;
//! the interpreter charges them. The bytes not named below are the halt
//! opcodes and the implied undocumented NOPs, all one byte and two cycles.

use vstd::prelude::*;
use crate::cpu::AddressingMode;

verus! {

#[derive(Clone, Copy)]
pub struct OpCode {
    pub len: u8,
    pub cycles: u8,
    pub mode: AddressingMode,
}

/// The table as a total function: every opcode byte has an entry.
pub open spec fn spec_opcode(code: u8) -> OpCode {
    match code {
        0x00 => OpCode { len: 1, cycles: 7, mode: AddressingMode::NoneAddressing },
        0x48 | 0x08 => OpCode { len: 1, cycles: 3, mode: AddressingMode::NoneAddressing },
        0x68 | 0x28 => OpCode { len: 1, cycles: 4, mode: AddressingMode::NoneAddressing },
        0x60 | 0x40 => OpCode { len: 1, cycles: 6, mode: AddressingMode::NoneAddressing },
        0xa9 | 0xa2 | 0xa0 | 0x69 | 0xe9 | 0x29 | 0x49 | 0x09 | 0xc9 | 0xc0 | 0xe0 | 0xeb | 0x0b
            | 0x2b | 0x4b | 0x6b | 0xcb | 0xab | 0x8b | 0x80 | 0x82 | 0x89 | 0xc2 | 0xe2 => OpCode {
            len: 2,
            cycles: 2,
            mode: AddressingMode::Immediate,
        },
        0x10 | 0x30 | 0x50 | 0x70 | 0x90 | 0xb0 | 0xd0 | 0xf0 => OpCode {
            len: 2,
            cycles: 2,
            mode: AddressingMode::NoneAddressing,
        },
        0xa5 | 0xa6 | 0xa4 | 0x65 | 0xe5 | 0x25 | 0x45 | 0x05 | 0xc5 | 0xc4 | 0xe4 | 0x24 | 0x85
            | 0x86 | 0x84 | 0xa7 | 0x87 | 0x04 | 0x44 | 0x64 => OpCode {
            len: 2,
            cycles: 3,
            mode: AddressingMode::ZeroPage,
        },
        0x06 | 0x46 | 0x26 | 0x66 | 0xe6 | 0xc6 | 0xc7 | 0xe7 | 0x07 | 0x27 | 0x47 | 0x67 => OpCode {
            len: 2,
            cycles: 5,
            mode: AddressingMode::ZeroPage,
        },
        0xb5 | 0xb4 | 0x75 | 0xf5 | 0x35 | 0x55 | 0x15 | 0xd5 | 0x95 | 0x94 | 0x14 | 0x34 | 0x54
            | 0x74 | 0xd4 | 0xf4 => OpCode { len: 2, cycles: 4, mode: AddressingMode::ZeroPage_X },
        0xb6 | 0x96 | 0xb7 | 0x97 => OpCode { len: 2, cycles: 4, mode: AddressingMode::ZeroPage_Y },
        0x16 | 0x56 | 0x36 | 0x76 | 0xf6 | 0xd6 | 0xd7 | 0xf7 | 0x17 | 0x37 | 0x57 | 0x77 => OpCode {
            len: 2,
            cycles: 6,
            mode: AddressingMode::ZeroPage_X,
        },
        0xad | 0xae | 0xac | 0x6d | 0xed | 0x2d | 0x4d | 0x0d | 0xcd | 0xcc | 0xec | 0x2c | 0x8d
            | 0x8e | 0x8c | 0xaf | 0x8f | 0x0c => OpCode {
            len: 3,
            cycles: 4,
            mode: AddressingMode::Absolute,
        },
        0x4c => OpCode { len: 3, cycles: 3, mode: AddressingMode::NoneAddressing },
        0x6c => OpCode { len: 3, cycles: 5, mode: AddressingMode::NoneAddressing },
        0x20 => OpCode { len: 3, cycles: 6, mode: AddressingMode::NoneAddressing },
        0xbd | 0xbc | 0x7d | 0xfd | 0x3d | 0x5d | 0x1d | 0xdd | 0x1c | 0x3c | 0x5c | 0x7c | 0xdc
            | 0xfc => OpCode { len: 3, cycles: 4, mode: AddressingMode::Absolute_X },
        0xb9 | 0xbe | 0x79 | 0xf9 | 0x39 | 0x59 | 0x19 | 0xd9 | 0xbf | 0xbb => OpCode {
            len: 3,
            cycles: 4,
            mode: AddressingMode::Absolute_Y,
        },
        0x9d | 0x9c => OpCode { len: 3, cycles: 5, mode: AddressingMode::Absolute_X },
        0x99 | 0x9f | 0x9e | 0x9b => OpCode { len: 3, cycles: 5, mode: AddressingMode::Absolute_Y },
        0x0e | 0x4e | 0x2e | 0x6e | 0xee | 0xce | 0xcf | 0xef | 0x0f | 0x2f | 0x4f | 0x6f => OpCode {
            len: 3,
            cycles: 6,
            mode: AddressingMode::Absolute,
        },
        0x1e | 0x5e | 0x3e | 0x7e | 0xfe | 0xde | 0xdf | 0xff | 0x1f | 0x3f | 0x5f | 0x7f => OpCode {
            len: 3,
            cycles: 7,
            mode: AddressingMode::Absolute_X,
        },
        0xdb | 0xfb | 0x1b | 0x3b | 0x5b | 0x7b => OpCode {
            len: 3,
            cycles: 7,
            mode: AddressingMode::Absolute_Y,
        },
        0xa1 | 0x61 | 0xe1 | 0x21 | 0x41 | 0x01 | 0xc1 | 0xa3 | 0x83 | 0x81 => OpCode {
            len: 2,
            cycles: 6,
            mode: AddressingMode::Indirect_X,
        },
        0xb1 | 0x71 | 0xf1 | 0x31 | 0x51 | 0x11 | 0xd1 | 0xb3 => OpCode {
            len: 2,
            cycles: 5,
            mode: AddressingMode::Indirect_Y,
        },
        0x91 | 0x93 => OpCode { len: 2, cycles: 6, mode: AddressingMode::Indirect_Y },
        0xc3 | 0xe3 | 0x03 | 0x23 | 0x43 | 0x63 => OpCode {
            len: 2,
            cycles: 8,
            mode: AddressingMode::Indirect_X,
        },
        0xd3 | 0xf3 | 0x13 | 0x33 | 0x53 | 0x73 => OpCode {
            len: 2,
            cycles: 8,
            mode: AddressingMode::Indirect_Y,
        },
        _ => OpCode { len: 1, cycles: 2, mode: AddressingMode::NoneAddressing },
    }
}

/// Looks an opcode up; total, and faithful to `spec_opcode` on every byte.
pub fn opcode_lookup(code: u8) -> (op: OpCode)
    ensures
        op == spec_opcode(code),
        1 <= op.len <= 3,
{
    match code {
        0x00 => OpCode { len: 1, cycles: 7, mode: AddressingMode::NoneAddressing },
        0x48 | 0x08 => OpCode { len: 1, cycles: 3, mode: AddressingMode::NoneAddressing },
        0x68 | 0x28 => OpCode { len: 1, cycles: 4, mode: AddressingMode::NoneAddressing },
        0x60 | 0x40 => OpCode { len: 1, cycles: 6, mode: AddressingMode::NoneAddressing },
        0xa9 | 0xa2 | 0xa0 | 0x69 | 0xe9 | 0x29 | 0x49 | 0x09 | 0xc9 | 0xc0 | 0xe0 | 0xeb | 0x0b
            | 0x2b | 0x4b | 0x6b | 0xcb | 0xab | 0x8b | 0x80 | 0x82 | 0x89 | 0xc2 | 0xe2 => OpCode {
            len: 2,
            cycles: 2,
            mode: AddressingMode::Immediate,
        },
        0x10 | 0x30 | 0x50 | 0x70 | 0x90 | 0xb0 | 0xd0 | 0xf0 => OpCode {
            len: 2,
            cycles: 2,
            mode: AddressingMode::NoneAddressing,
        },
        0xa5 | 0xa6 | 0xa4 | 0x65 | 0xe5 | 0x25 | 0x45 | 0x05 | 0xc5 | 0xc4 | 0xe4 | 0x24 | 0x85
            | 0x86 | 0x84 | 0xa7 | 0x87 | 0x04 | 0x44 | 0x64 => OpCode {
            len: 2,
            cycles: 3,
            mode: AddressingMode::ZeroPage,
        },
        0x06 | 0x46 | 0x26 | 0x66 | 0xe6 | 0xc6 | 0xc7 | 0xe7 | 0x07 | 0x27 | 0x47 | 0x67 => OpCode {
            len: 2,
            cycles: 5,
            mode: AddressingMode::ZeroPage,
        },
        0xb5 | 0xb4 | 0x75 | 0xf5 | 0x35 | 0x55 | 0x15 | 0xd5 | 0x95 | 0x94 | 0x14 | 0x34 | 0x54
            | 0x74 | 0xd4 | 0xf4 => OpCode { len: 2, cycles: 4, mode: AddressingMode::ZeroPage_X },
        0xb6 | 0x96 | 0xb7 | 0x97 => OpCode { len: 2, cycles: 4, mode: AddressingMode::ZeroPage_Y },
        0x16 | 0x56 | 0x36 | 0x76 | 0xf6 | 0xd6 | 0xd7 | 0xf7 | 0x17 | 0x37 | 0x57 | 0x77 => OpCode {
            len: 2,
            cycles: 6,
            mode: AddressingMode::ZeroPage_X,
        },
        0xad | 0xae | 0xac | 0x6d | 0xed | 0x2d | 0x4d | 0x0d | 0xcd | 0xcc | 0xec | 0x2c | 0x8d
            | 0x8e | 0x8c | 0xaf | 0x8f | 0x0c => OpCode {
            len: 3,
            cycles: 4,
            mode: AddressingMode::Absolute,
        },
        0x4c => OpCode { len: 3, cycles: 3, mode: AddressingMode::NoneAddressing },
        0x6c => OpCode { len: 3, cycles: 5, mode: AddressingMode::NoneAddressing },
        0x20 => OpCode { len: 3, cycles: 6, mode: AddressingMode::NoneAddressing },
        0xbd | 0xbc | 0x7d | 0xfd | 0x3d | 0x5d | 0x1d | 0xdd | 0x1c | 0x3c | 0x5c | 0x7c | 0xdc
            | 0xfc => OpCode { len: 3, cycles: 4, mode: AddressingMode::Absolute_X },
        0xb9 | 0xbe | 0x79 | 0xf9 | 0x39 | 0x59 | 0x19 | 0xd9 | 0xbf | 0xbb => OpCode {
            len: 3,
            cycles: 4,
            mode: AddressingMode::Absolute_Y,
        },
        0x9d | 0x9c => OpCode { len: 3, cycles: 5, mode: AddressingMode::Absolute_X },
        0x99 | 0x9f | 0x9e | 0x9b => OpCode { len: 3, cycles: 5, mode: AddressingMode::Absolute_Y },
        0x0e | 0x4e | 0x2e | 0x6e | 0xee | 0xce | 0xcf | 0xef | 0x0f | 0x2f | 0x4f | 0x6f => OpCode {
            len: 3,
            cycles: 6,
            mode: AddressingMode::Absolute,
        },
        0x1e | 0x5e | 0x3e | 0x7e | 0xfe | 0xde | 0xdf | 0xff | 0x1f | 0x3f | 0x5f | 0x7f => OpCode {
            len: 3,
            cycles: 7,
            mode: AddressingMode::Absolute_X,
        },
        0xdb | 0xfb | 0x1b | 0x3b | 0x5b | 0x7b => OpCode {
            len: 3,
            cycles: 7,
            mode: AddressingMode::Absolute_Y,
        },
        0xa1 | 0x61 | 0xe1 | 0x21 | 0x41 | 0x01 | 0xc1 | 0xa3 | 0x83 | 0x81 => OpCode {
            len: 2,
            cycles: 6,
            mode: AddressingMode::Indirect_X,
        },
        0xb1 | 0x71 | 0xf1 | 0x31 | 0x51 | 0x11 | 0xd1 | 0xb3 => OpCode {
            len: 2,
            cycles: 5,
            mode: AddressingMode::Indirect_Y,
        },
        0x91 | 0x93 => OpCode { len: 2, cycles: 6, mode: AddressingMode::Indirect_Y },
        0xc3 | 0xe3 | 0x03 | 0x23 | 0x43 | 0x63 => OpCode {
            len: 2,
            cycles: 8,
            mode: AddressingMode::Indirect_X,
        },
        0xd3 | 0xf3 | 0x13 | 0x33 | 0x53 | 0x73 => OpCode {
            len: 2,
            cycles: 8,
            mode: AddressingMode::Indirect_Y,
        },
        _ => OpCode { len: 1, cycles: 2, mode: AddressingMode::NoneAddressing },
    }
}

} // verus!

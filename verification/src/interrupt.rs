//! Interrupt descriptors: the vector to load, the mask applied to the status
//! byte pushed on entry, and the cycles the entry sequence charges.

use vstd::prelude::*;

verus! {

#[derive(Clone, Copy, PartialEq, Eq, Structural)]
pub enum InterruptType {
    Nmi,
}

#[derive(Clone, Copy, PartialEq, Eq, Structural)]
pub struct Interrupt {
    pub itype: InterruptType,
    pub vector_addr: u16,
    pub b_flag_mask: u8,
    pub cpu_cycles: u8,
}

/// The non-maskable interrupt: vector 0xfffa, pushed status carries the
/// always-set bit (bit 5) and a clear B flag, entry charges 2 cycles.
pub open spec fn nmi_descriptor() -> Interrupt {
    Interrupt { itype: InterruptType::Nmi, vector_addr: 0xfffa, b_flag_mask: 0x20, cpu_cycles: 2 }
}

impl Interrupt {
    pub fn nmi() -> (i: Interrupt)
        ensures
            i == nmi_descriptor(),
    {
        Interrupt {
            itype: InterruptType::Nmi,
            vector_addr: 0xfffa,
            b_flag_mask: 0b0010_0000,
            cpu_cycles: 2,
        }
    }
}

} // verus!

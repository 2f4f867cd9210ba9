//! CPU feature bootstrap: enables the floating-point/SIMD execution units by
//! a pure bit transform of the two machine control registers.
//!
//! In the primary control register the "emulate floating-point unit" bit is
//! cleared and the "monitor co-processor" bit is set; in the auxiliary
//! control register the two bits are set that let the kernel use SIMD
//! register state and receive structured rather than silent faults on
//! invalid SIMD operations.  Every other bit is left exactly as it was.

use vstd::prelude::*;

use crate::machine::Event;
use crate::machine::Machine;

verus! {

/// Primary control register: "monitor co-processor" bit.
pub const CR0_MP: u64 = 0x2;

/// Primary control register: "emulate floating-point unit" bit.
pub const CR0_EM: u64 = 0x4;

/// Auxiliary control register: SIMD register state enable bit.
pub const CR4_OSFXSR: u64 = 0x200;

/// Auxiliary control register: structured-SIMD-fault enable bit.
pub const CR4_OSXMMEXCPT: u64 = 0x400;

/// The primary control register after the bootstrap: emulation off,
/// co-processor monitoring on.
pub open spec fn cr0_enabled(cr0: u64) -> u64 {
    (cr0 & !CR0_EM) | CR0_MP
}

/// The auxiliary control register after the bootstrap: SIMD state and
/// structured SIMD faults on.
pub open spec fn cr4_enabled(cr4: u64) -> u64 {
    cr4 | (CR4_OSFXSR | CR4_OSXMMEXCPT)
}

/// The bootstrap is a pure bit transform: whatever the initial register
/// patterns, the two target bits of the primary register and the two target
/// bits of the auxiliary register end in their specified state, and every
/// other bit of either register is unchanged.
pub proof fn lemma_extended_state_bits(cr0: u64, cr4: u64)
    ensures
        cr0_enabled(cr0) & CR0_MP == CR0_MP,
        cr0_enabled(cr0) & CR0_EM == 0,
        cr0_enabled(cr0) & !(CR0_MP | CR0_EM) == cr0 & !(CR0_MP | CR0_EM),
        cr4_enabled(cr4) & (CR4_OSFXSR | CR4_OSXMMEXCPT) == (CR4_OSFXSR | CR4_OSXMMEXCPT),
        cr4_enabled(cr4) & !(CR4_OSFXSR | CR4_OSXMMEXCPT) == cr4 & !(CR4_OSFXSR
            | CR4_OSXMMEXCPT),
{
    assert(((cr0 & !0x4u64) | 0x2u64) & 0x2u64 == 0x2u64) by (bit_vector);
    assert(((cr0 & !0x4u64) | 0x2u64) & 0x4u64 == 0u64) by (bit_vector);
    assert(((cr0 & !0x4u64) | 0x2u64) & !(0x2u64 | 0x4u64) == cr0 & !(0x2u64 | 0x4u64))
        by (bit_vector);
    assert((cr4 | (0x200u64 | 0x400u64)) & (0x200u64 | 0x400u64) == (0x200u64 | 0x400u64))
        by (bit_vector);
    assert((cr4 | (0x200u64 | 0x400u64)) & !(0x200u64 | 0x400u64) == cr4 & !(0x200u64
        | 0x400u64)) by (bit_vector);
}

/// Enables the floating-point/SIMD execution units.  Must run before any
/// code path that could emit a floating-point/SIMD instruction; it makes no
/// assumption about prior machine state and records exactly the two
/// control-register writes.
pub fn enable_extended_state(m: &mut Machine)
    ensures
        final(m).cr0 == cr0_enabled(old(m).cr0),
        final(m).cr4 == cr4_enabled(old(m).cr4),
        final(m).events@ == old(m).events@ + seq![
            Event::Cr0Write { value: cr0_enabled(old(m).cr0) },
            Event::Cr4Write { value: cr4_enabled(old(m).cr4) },
        ],
        final(m).cursor == old(m).cursor,
        final(m).read_script@ == old(m).read_script@,
        final(m).interrupts_enabled == old(m).interrupts_enabled,
        final(m).halted == old(m).halted,
{
    let cr0: u64 = (m.cr0 & !CR0_EM) | CR0_MP;
    m.cr0 = cr0;
    m.events.push(Event::Cr0Write { value: cr0 });
    let cr4: u64 = m.cr4 | (CR4_OSFXSR | CR4_OSXMMEXCPT);
    m.cr4 = cr4;
    m.events.push(Event::Cr4Write { value: cr4 });
    proof {
        assert(m.events@ =~= old(m).events@ + seq![
            Event::Cr0Write { value: cr0_enabled(old(m).cr0) },
            Event::Cr4Write { value: cr4_enabled(old(m).cr4) },
        ]);
    }
}

} // verus!

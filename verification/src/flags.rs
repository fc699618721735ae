//! The processor status word and its named flag bits.
//!
//! The status register is a plain `u8`; each flag occupies one bit:
//!
//! ```text
//!  7 6 5 4 3 2 1 0
//!  N V _ B D I Z C
//!  | |   | | | | +--- carry
//!  | |   | | | +----- zero
//!  | |   | | +------- interrupt disable
//!  | |   | +--------- decimal mode
//!  | |   +----------- break marker
//!  | +--------------- overflow
//!  +----------------- negative
//! ```
//!
//! Bit 5 is a reserved marker that the reset pattern sets and no
//! instruction consumes.

use vstd::prelude::*;

verus! {

/// One named bit of the processor status word.
#[derive(Clone, Copy, PartialEq, Eq, Structural, Debug)]
pub enum CpuFlags {
    Carry,
    Zero,
    InterruptDisable,
    DecimalMode,
    Break,
    Break2,
    Overflow,
    Negative,
}

/// The status pattern established by power-up and by reset:
/// interrupt disable (bit 2) and the reserved marker (bit 5) set.
pub const RESET_STATUS: u8 = 0b10_0100;

impl CpuFlags {
    /// The single-bit mask of this flag within the status word.
    pub open spec fn spec_mask(self) -> u8 {
        match self {
            CpuFlags::Carry => 0x01,
            CpuFlags::Zero => 0x02,
            CpuFlags::InterruptDisable => 0x04,
            CpuFlags::DecimalMode => 0x08,
            CpuFlags::Break => 0x10,
            CpuFlags::Break2 => 0x20,
            CpuFlags::Overflow => 0x40,
            CpuFlags::Negative => 0x80,
        }
    }

    /// Returns the single-bit mask of this flag within the status word.
    #[verifier::when_used_as_spec(spec_mask)]
    pub fn mask(self) -> (m: u8)
        ensures
            m == self.spec_mask(),
    {
        match self {
            CpuFlags::Carry => 0x01,
            CpuFlags::Zero => 0x02,
            CpuFlags::InterruptDisable => 0x04,
            CpuFlags::DecimalMode => 0x08,
            CpuFlags::Break => 0x10,
            CpuFlags::Break2 => 0x20,
            CpuFlags::Overflow => 0x40,
            CpuFlags::Negative => 0x80,
        }
    }
}

/// Whether `flag` is set in the status word `status`.
pub open spec fn flag_set(status: u8, flag: CpuFlags) -> bool {
    status & flag.spec_mask() != 0
}

/// The status word with `flag` set and every other bit unchanged.
pub open spec fn with_flag(status: u8, flag: CpuFlags) -> u8 {
    status | flag.spec_mask()
}

/// The status word with `flag` cleared and every other bit unchanged.
pub open spec fn without_flag(status: u8, flag: CpuFlags) -> u8 {
    status & !flag.spec_mask()
}

/// Setting a flag makes it read as set; clearing it makes it read as
/// clear.
pub proof fn lemma_with_without(status: u8, flag: CpuFlags)
    ensures
        flag_set(with_flag(status, flag), flag),
        !flag_set(without_flag(status, flag), flag),
{
    let m = flag.spec_mask();
    assert(m != 0);
    assert((status | m) & m != 0 && (status & !m) & m == 0) by (bit_vector)
        requires
            m != 0,
    ;
}

/// The status word after the derived zero/negative update on `value`:
/// zero is set iff `value == 0`, negative is set iff bit 7 of `value`
/// is set, and every other bit keeps its prior state.
pub open spec fn update_zn(status: u8, value: u8) -> u8 {
    let s = if value == 0 {
        with_flag(status, CpuFlags::Zero)
    } else {
        without_flag(status, CpuFlags::Zero)
    };
    if value & 0x80 != 0 {
        with_flag(s, CpuFlags::Negative)
    } else {
        without_flag(s, CpuFlags::Negative)
    }
}

/// The zero/negative update drives the zero and negative bits from
/// `value` alone — zero iff `value == 0`, negative iff bit 7 of `value`
/// is set — and leaves all six other bits of the prior status intact.
pub proof fn lemma_update_zn(status: u8, value: u8)
    ensures
        flag_set(update_zn(status, value), CpuFlags::Zero) <==> value == 0,
        flag_set(update_zn(status, value), CpuFlags::Negative) <==> value & 0x80 != 0,
        flag_set(update_zn(status, value), CpuFlags::Carry) == flag_set(status, CpuFlags::Carry),
        flag_set(update_zn(status, value), CpuFlags::InterruptDisable) == flag_set(
            status,
            CpuFlags::InterruptDisable,
        ),
        flag_set(update_zn(status, value), CpuFlags::DecimalMode) == flag_set(
            status,
            CpuFlags::DecimalMode,
        ),
        flag_set(update_zn(status, value), CpuFlags::Break) == flag_set(status, CpuFlags::Break),
        flag_set(update_zn(status, value), CpuFlags::Break2) == flag_set(status, CpuFlags::Break2),
        flag_set(update_zn(status, value), CpuFlags::Overflow) == flag_set(
            status,
            CpuFlags::Overflow,
        ),
{
    let r = update_zn(status, value);
    assert({
        let s = if value == 0 {
            status | 0x02
        } else {
            status & !0x02
        };
        let t = if value & 0x80 != 0 {
            s | 0x80
        } else {
            s & !0x80
        };
        ((t & 0x02 != 0) <==> value == 0) && ((t & 0x80 != 0) <==> value & 0x80 != 0) && (t & 0x01
            == status & 0x01) && (t & 0x04 == status & 0x04) && (t & 0x08 == status & 0x08) && (t
            & 0x10 == status & 0x10) && (t & 0x20 == status & 0x20) && (t & 0x40 == status & 0x40)
    }) by (bit_vector);
}

} // verus!

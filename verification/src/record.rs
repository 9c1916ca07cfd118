//! The visibility-relevant state of one symbol-table record, for both object
//! formats, and the bit-level edits the policy engine may apply to it.

use vstd::prelude::*;

verus! {

/// ELF `st_other`: default visibility (low two bits clear).
pub const STV_DEFAULT: u8 = 0;
/// ELF `st_other`: hidden visibility.
pub const STV_HIDDEN: u8 = 2;
/// Mask of the `st_other` bits that do not encode visibility.
pub const ELF_NONVIS_MASK: u8 = 0xfc;
/// Mach-O `n_type`: mask of the bits marking a debugging (stab) entry.
pub const N_STAB: u8 = 0xe0;
/// Mach-O `n_type`: the private-extern bit; set means hidden.
pub const N_PEXT: u8 = 0x10;
/// Mask of the `n_type` bits other than the private-extern bit.
pub const MACH_NONVIS_MASK: u8 = 0xef;

/// The flag byte of one symbol record, tagged by object format. This is all
/// of a record the policy engine reads or rewrites; the rest of the record's
/// encoding is carried through untouched.
#[derive(Clone, Copy, PartialEq, Eq, Structural, Debug)]
pub enum SymbolFlags {
    /// An ELF symbol: the `st_other` byte, whose low two bits hold visibility.
    Elf { st_other: u8 },
    /// A Mach-O symbol: the `n_type` byte.
    MachO { n_type: u8 },
}

impl SymbolFlags {
    /// A debug-only entry, which carries no link-time visibility and must
    /// never be edited. ELF symbol tables hold no such entries; Mach-O marks
    /// them with the stab bits.
    pub open spec fn is_debug(self) -> bool {
        match self {
            SymbolFlags::Elf { st_other } => false,
            SymbolFlags::MachO { n_type } => n_type & N_STAB != 0,
        }
    }

    /// The record with its visibility forced to hidden, all other bits kept.
    pub open spec fn spec_hidden(self) -> SymbolFlags {
        match self {
            SymbolFlags::Elf { st_other } => SymbolFlags::Elf {
                st_other: (st_other & ELF_NONVIS_MASK) | STV_HIDDEN,
            },
            SymbolFlags::MachO { n_type } => SymbolFlags::MachO { n_type: n_type | N_PEXT },
        }
    }

    /// The record with its visibility forced to default, all other bits kept.
    pub open spec fn spec_default(self) -> SymbolFlags {
        match self {
            SymbolFlags::Elf { st_other } => SymbolFlags::Elf {
                st_other: (st_other & ELF_NONVIS_MASK) | STV_DEFAULT,
            },
            SymbolFlags::MachO { n_type } => SymbolFlags::MachO { n_type: n_type & MACH_NONVIS_MASK },
        }
    }

    /// The raw byte that encodes this record's flags.
    pub open spec fn spec_byte(self) -> u8 {
        match self {
            SymbolFlags::Elf { st_other } => st_other,
            SymbolFlags::MachO { n_type } => n_type,
        }
    }

    /// Whether this entry is debug-only (stab) and so exempt from edits.
    pub fn is_debug_entry(&self) -> (r: bool)
        ensures
            r == self.is_debug(),
    {
        match self {
            SymbolFlags::Elf { .. } => false,
            SymbolFlags::MachO { n_type } => *n_type & N_STAB != 0,
        }
    }

    /// Force hidden visibility, keeping every other flag bit.
    pub fn with_hidden(&self) -> (r: SymbolFlags)
        ensures
            r == self.spec_hidden(),
    {
        match self {
            SymbolFlags::Elf { st_other } => SymbolFlags::Elf {
                st_other: (*st_other & ELF_NONVIS_MASK) | STV_HIDDEN,
            },
            SymbolFlags::MachO { n_type } => SymbolFlags::MachO { n_type: *n_type | N_PEXT },
        }
    }

    /// Force default visibility, keeping every other flag bit.
    pub fn with_default(&self) -> (r: SymbolFlags)
        ensures
            r == self.spec_default(),
    {
        match self {
            SymbolFlags::Elf { st_other } => SymbolFlags::Elf {
                st_other: (*st_other & ELF_NONVIS_MASK) | STV_DEFAULT,
            },
            SymbolFlags::MachO { n_type } => SymbolFlags::MachO { n_type: *n_type & MACH_NONVIS_MASK },
        }
    }

    /// The mask of flag bits outside this format's visibility field.
    pub open spec fn nonvis_mask(self) -> u8 {
        match self {
            SymbolFlags::Elf { .. } => ELF_NONVIS_MASK,
            SymbolFlags::MachO { .. } => MACH_NONVIS_MASK,
        }
    }

    /// The raw flag byte, as it is written back into the record's encoding.
    pub fn byte(&self) -> (r: u8)
        ensures
            r == self.spec_byte(),
    {
        match self {
            SymbolFlags::Elf { st_other } => *st_other,
            SymbolFlags::MachO { n_type } => *n_type,
        }
    }
}

/// Forcing a visibility twice gives the same record as forcing it once.
pub proof fn lemma_set_visibility_idempotent(flags: SymbolFlags)
    ensures
        flags.spec_hidden().spec_hidden() == flags.spec_hidden(),
        flags.spec_default().spec_default() == flags.spec_default(),
{
    match flags {
        SymbolFlags::Elf { st_other } => {
            assert((((st_other & 0xfc) | 2) & 0xfc) | 2 == (st_other & 0xfc) | 2) by (bit_vector);
            assert((((st_other & 0xfc) | 0) & 0xfc) | 0 == (st_other & 0xfc) | 0) by (bit_vector);
        },
        SymbolFlags::MachO { n_type } => {
            assert((n_type | 0x10) | 0x10 == n_type | 0x10) by (bit_vector);
            assert((n_type & 0xef) & 0xef == n_type & 0xef) by (bit_vector);
        },
    }
}

/// A visibility edit never changes whether a record is debug-only.
pub proof fn lemma_visibility_preserves_debug_class(flags: SymbolFlags)
    ensures
        flags.spec_hidden().is_debug() == flags.is_debug(),
        flags.spec_default().is_debug() == flags.is_debug(),
{
    match flags {
        SymbolFlags::Elf { st_other } => {},
        SymbolFlags::MachO { n_type } => {
            assert(((n_type | 0x10) & 0xe0 != 0) == (n_type & 0xe0 != 0)) by (bit_vector);
            assert(((n_type & 0xef) & 0xe0 != 0) == (n_type & 0xe0 != 0)) by (bit_vector);
        },
    }
}

/// A visibility edit changes only the visibility bits: every bit outside the
/// format's visibility field is carried over unchanged.
pub proof fn lemma_visibility_preserves_other_bits(flags: SymbolFlags)
    ensures
        flags.spec_hidden().spec_byte() & flags.nonvis_mask() == flags.spec_byte()
            & flags.nonvis_mask(),
        flags.spec_default().spec_byte() & flags.nonvis_mask() == flags.spec_byte()
            & flags.nonvis_mask(),
{
    match flags {
        SymbolFlags::Elf { st_other } => {
            assert((((st_other & 0xfc) | 2) & 0xfc) == st_other & 0xfc) by (bit_vector);
            assert((((st_other & 0xfc) | 0) & 0xfc) == st_other & 0xfc) by (bit_vector);
        },
        SymbolFlags::MachO { n_type } => {
            assert(((n_type | 0x10) & 0xef) == n_type & 0xef) by (bit_vector);
            assert(((n_type & 0xef) & 0xef) == n_type & 0xef) by (bit_vector);
        },
    }
}

} // verus!

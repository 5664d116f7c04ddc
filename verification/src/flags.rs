//! The named flag bits of a field record.
//!
//! The values are mandated by the document format, not chosen here: two
//! behavior bits shared by every field kind, and the sub-kind bits that
//! distinguish buttons and choice fields.

use vstd::prelude::*;

verus! {

/// Behavior flags, read from the record's optional integer flag bitset
/// (an absent bitset counts as zero).
pub const FLAG_READONLY: u32 = 0x1;

pub const FLAG_REQUIRED: u32 = 0x2;

/// Button sub-kind flags.
pub const BTN_NO_TOGGLE_TO_OFF: u32 = 0x8000;

pub const BTN_RADIO: u32 = 0x10000;

pub const BTN_PUSHBUTTON: u32 = 0x20000;

pub const BTN_RADIO_IN_UNISON: u32 = 0x4000000;

/// Choice sub-kind flags.
pub const CH_COMBO: u32 = 0x20000;

pub const CH_EDIT: u32 = 0x40000;

pub const CH_SORT: u32 = 0x80000;

pub const CH_MULTISELECT: u32 = 0x200000;

pub const CH_DO_NOT_SPELLCHECK: u32 = 0x800000;

pub const CH_COMMIT_ON_CHANGE: u32 = 0x8000000;

/// The bitset marks the field read-only.
pub open spec fn spec_read_only(flags: u32) -> bool {
    flags & FLAG_READONLY != 0
}

/// The bitset marks the field required.
pub open spec fn spec_required(flags: u32) -> bool {
    flags & FLAG_REQUIRED != 0
}

/// The bitset allows several selected options at once.
pub open spec fn spec_multiselect(flags: u32) -> bool {
    flags & CH_MULTISELECT != 0
}

/// The bitset allows free text beside the listed options.
pub open spec fn spec_editable(flags: u32) -> bool {
    flags & CH_EDIT != 0
}

} // verus!

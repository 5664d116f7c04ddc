//! Classification of a field record into one of the six recognized kinds.
//!
//! The kind is derived, never stored: it is recomputed from the record's
//! type code and flag bitset on every query.

use vstd::prelude::*;

use crate::flags::{BTN_NO_TOGGLE_TO_OFF, BTN_PUSHBUTTON, BTN_RADIO, CH_COMBO};
use crate::model::{FieldType, FtKind};

verus! {

/// The kind that a type code and flag bitset derive.
///
/// The order of the button tests is a tie-break contract: radio-ness is
/// checked before pushbutton-ness before defaulting to checkbox, since all
/// three share the button type code and differ only in their flags.
pub open spec fn spec_classify(ft: FtKind, flags: u32) -> FieldType {
    match ft {
        FtKind::Btn => if flags & (BTN_RADIO | BTN_NO_TOGGLE_TO_OFF) != 0 {
            FieldType::Radio
        } else if flags & BTN_PUSHBUTTON != 0 {
            FieldType::Button
        } else {
            FieldType::CheckBox
        },
        FtKind::Ch => if flags & CH_COMBO != 0 {
            FieldType::ComboBox
        } else {
            FieldType::ListBox
        },
        FtKind::Tx => FieldType::Text,
        FtKind::Other => FieldType::Unknown,
    }
}

/// Derives the kind of a field from its type code and flag bitset.
pub fn classify(ft: FtKind, flags: u32) -> (t: FieldType)
    ensures
        t == spec_classify(ft, flags),
{
    match ft {
        FtKind::Btn => {
            if flags & (BTN_RADIO | BTN_NO_TOGGLE_TO_OFF) != 0 {
                FieldType::Radio
            } else if flags & BTN_PUSHBUTTON != 0 {
                FieldType::Button
            } else {
                FieldType::CheckBox
            }
        },
        FtKind::Ch => {
            if flags & CH_COMBO != 0 {
                FieldType::ComboBox
            } else {
                FieldType::ListBox
            }
        },
        FtKind::Tx => FieldType::Text,
        FtKind::Other => FieldType::Unknown,
    }
}

} // verus!

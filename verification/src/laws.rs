//! Laws that tie the library's operations together, each proved from the
//! contracts that the operations themselves carry.

use vstd::prelude::*;

use crate::classify::spec_classify;
use crate::flags::{spec_read_only, spec_required, BTN_NO_TOGGLE_TO_OFF, BTN_RADIO};
use crate::form::{spec_check_name, spec_list_value};
use crate::model::{FieldRecV, FieldStateV, FieldType, FtKind, ValSnapV};
use crate::state::{
    spec_choice_selected, spec_radio_options, spec_state_of,
};

verus! {

/// Classification tie-break: a button-kind record whose radio flag is set
/// classifies as a radio group, whatever its other flags — in particular
/// when the pushbutton flag is set at the same time, since radio-ness is
/// checked first.
pub proof fn lemma_radio_beats_pushbutton(flags: u32)
    requires
        flags & BTN_RADIO != 0,
    ensures
        spec_classify(FtKind::Btn, flags) == FieldType::Radio,
{
    assert(flags & (BTN_RADIO | BTN_NO_TOGGLE_TO_OFF) != 0) by (bit_vector)
        requires
            flags & 0x10000u32 != 0,
    ;
}

/// Reading a field's state is idempotent: the state is a pure function of
/// the record snapshot, so two reads without a write in between yield the
/// same state.
pub proof fn lemma_state_read_idempotent(rec: FieldRecV, s1: FieldStateV, s2: FieldStateV)
    requires
        s1 == spec_state_of(rec),
        s2 == spec_state_of(rec),
    ensures
        s1 == s2,
{
}

/// Round trip for text: after a text field's value is replaced by a
/// string, the state it derives is the text state carrying exactly that
/// string, with the record's unchanged behavior flags.
pub proof fn lemma_text_round_trip(rec: FieldRecV, text: Seq<char>)
    requires
        spec_classify(rec.ft, rec.flags) == FieldType::Text,
    ensures
        spec_state_of(FieldRecV { value: ValSnapV::Str(text), ..rec }) == (FieldStateV::Text {
            text,
            readonly: spec_read_only(rec.flags),
            required: spec_required(rec.flags),
        }),
{
}

/// Round trip for a radio group: after its value is replaced by a choice
/// name, the state it derives selects exactly that choice, over the
/// group's unchanged options.
pub proof fn lemma_radio_round_trip(rec: FieldRecV, choice: Seq<char>)
    requires
        spec_classify(rec.ft, rec.flags) == FieldType::Radio,
    ensures
        spec_state_of(FieldRecV { value: ValSnapV::Name(choice), ..rec }) == (FieldStateV::Radio {
            selected: choice,
            options: spec_radio_options(rec.kid_on),
            readonly: spec_read_only(rec.flags),
            required: spec_required(rec.flags),
        }),
{
}

/// Round trip for a selection: the value that a list selection writes —
/// null, a single string, or an array — reads back as exactly the written
/// sequence of choices.
pub proof fn lemma_list_value_round_trip(choices: Seq<Seq<char>>)
    ensures
        spec_choice_selected(spec_list_value(choices)) == choices,
{
    if choices.len() == 0 {
        assert(spec_choice_selected(spec_list_value(choices)) =~= choices);
    } else if choices.len() == 1 {
        assert(seq![choices[0]] =~= choices);
    }
}

/// On-value resolution: a checked toggle writes the field's configured
/// on-state name — the first normal-appearance key other than `Off` —
/// and falls back to `Yes` only where the field has none; an unchecked
/// toggle always writes `Off`.
pub proof fn lemma_checkbox_write_name(rec: FieldRecV, is_checked: bool)
    ensures
        is_checked ==> (rec.field_on matches Option::Some(on) ==> spec_check_name(
            rec,
            is_checked,
        ) == on),
        is_checked ==> (rec.field_on matches Option::None ==> spec_check_name(rec, is_checked)
            == "Yes"@),
        !is_checked ==> spec_check_name(rec, is_checked) == "Off"@,
{
}

} // verus!

//! Reconstruction of a typed state snapshot from a field record.
//!
//! Every read is a pure function of the record snapshot: nothing here is
//! cached, so reading twice without a write in between yields the same
//! state.

use vstd::prelude::*;
use vstd::string::StringExecFns;

use crate::classify::{classify, spec_classify};
use crate::flags::{
    spec_editable, spec_multiselect, spec_read_only, spec_required, CH_EDIT, CH_MULTISELECT,
    FLAG_READONLY, FLAG_REQUIRED,
};
use crate::model::{FieldRec, FieldRecV, FieldState, FieldStateV, FieldType, ValSnap, ValSnapV};
use crate::text::{spec_dec_chars, usize_to_dec_string};

verus! {

/// The name the record currently selects: the current-value name if the
/// current value is a name, else the current appearance-state name, else
/// the empty string.
pub open spec fn spec_selected_name(rec: FieldRecV) -> Seq<char> {
    match rec.value {
        ValSnapV::Name(s) => s,
        _ => match rec.app_state {
            Option::Some(s) => s,
            Option::None => Seq::<char>::empty(),
        },
    }
}

/// A checkbox is checked exactly when the selected name is `Yes`.
pub open spec fn spec_is_checked(rec: FieldRecV) -> bool {
    spec_selected_name(rec) == "Yes"@
}

/// The selection of a choice field: one entry for a single string value,
/// the elements for an array value, nothing otherwise.
pub open spec fn spec_choice_selected(v: ValSnapV) -> Seq<Seq<char>> {
    match v {
        ValSnapV::Str(s) => seq![s],
        ValSnapV::StrArr(a) => a,
        _ => Seq::<Seq<char>>::empty(),
    }
}

/// The text of a text field: the current value where it is a string.
pub open spec fn spec_text_value(v: ValSnapV) -> Seq<char> {
    match v {
        ValSnapV::Str(s) => s,
        _ => Seq::<char>::empty(),
    }
}

/// The cooked option list of a choice field: each extracted option string
/// in order, empty ones included; only entries of another shape, marked
/// absent at extraction, are skipped.
pub open spec fn spec_options(opts: Seq<Option<Seq<char>>>) -> Seq<Seq<char>>
    decreases opts.len(),
{
    if opts.len() == 0 {
        Seq::<Seq<char>>::empty()
    } else {
        let rest = spec_options(opts.drop_last());
        match opts.last() {
            Option::Some(s) => rest.push(s),
            Option::None => rest,
        }
    }
}

/// The option names of a radio group: each kid's on-state name, or the
/// kid's zero-based position rendered in decimal where it has none. There
/// is always one option per kid.
pub open spec fn spec_radio_options(kid_on: Seq<Option<Seq<char>>>) -> Seq<Seq<char>> {
    Seq::new(
        kid_on.len(),
        |i: int|
            match kid_on[i] {
                Option::Some(s) => s,
                Option::None => spec_dec_chars(i as nat),
            },
    )
}

/// The record's configured on-state name: the first key other than `Off`
/// of its own normal-appearance dictionary, or `Yes` where it has none.
pub open spec fn spec_on_value(rec: FieldRecV) -> Seq<char> {
    match rec.field_on {
        Option::Some(s) => s,
        Option::None => "Yes"@,
    }
}

/// Compares a string against a literal.
pub fn str_eq_lit(a: &String, b: &str) -> (r: bool)
    ensures
        r == (a@ == b@),
{
    let bs = String::from_str(b);
    *a == bs
}

fn clone_string_vec(v: &Vec<String>) -> (r: Vec<String>)
    ensures
        r.deep_view() == v.deep_view(),
{
    let mut r: Vec<String> = Vec::new();
    let mut i: usize = 0;
    while i < v.len()
        invariant
            i <= v@.len(),
            r.deep_view() =~~= v.deep_view().take(i as int),
        decreases v@.len() - i,
    {
        let ghost prev = r.deep_view();
        r.push(v[i].clone());
        i += 1;
        proof {
            assert(r.deep_view() =~~= prev.push(v@[i - 1]@));
            assert(r.deep_view() =~~= v.deep_view().take(i as int));
        }
    }
    proof {
        assert(v.deep_view().take(i as int) =~~= v.deep_view());
    }
    r
}

/// The selected name of the record, as [`spec_selected_name`] gives it.
fn selected_name(rec: &FieldRec) -> (r: String)
    ensures
        r@ == spec_selected_name(rec.deep_view()),
{
    match &rec.value {
        ValSnap::Name(s) => s.clone(),
        _ => match &rec.app_state {
            Option::Some(s) => s.clone(),
            Option::None => {
                let r = String::new();
                proof {
                    assert(r@ =~= Seq::<char>::empty());
                }
                r
            },
        },
    }
}

/// The record's on-state name, as [`spec_on_value`] gives it.
pub(crate) fn on_value(rec: &FieldRec) -> (r: String)
    ensures
        r@ == spec_on_value(rec.deep_view()),
{
    match &rec.field_on {
        Option::Some(s) => s.clone(),
        Option::None => String::from_str("Yes"),
    }
}

/// The choice selection of the record's current value.
pub(crate) fn choice_selected(rec: &FieldRec) -> (r: Vec<String>)
    ensures
        r.deep_view() == spec_choice_selected(rec.deep_view().value),
{
    match &rec.value {
        ValSnap::Str(s) => {
            let mut r: Vec<String> = Vec::new();
            r.push(s.clone());
            proof {
                assert(r.deep_view() =~~= spec_choice_selected(rec.deep_view().value));
            }
            r
        },
        ValSnap::StrArr(v) => clone_string_vec(v),
        _ => {
            let r: Vec<String> = Vec::new();
            proof {
                assert(r.deep_view() =~~= spec_choice_selected(rec.deep_view().value));
            }
            r
        },
    }
}

/// The cooked option list of the record, as [`spec_options`] gives it.
pub(crate) fn options_of(opts: &Vec<Option<String>>) -> (r: Vec<String>)
    ensures
        r.deep_view() == spec_options(opts.deep_view()),
{
    let mut r: Vec<String> = Vec::new();
    let mut i: usize = 0;
    while i < opts.len()
        invariant
            i <= opts@.len(),
            r.deep_view() =~~= spec_options(opts.deep_view().take(i as int)),
        decreases opts@.len() - i,
    {
        match &opts[i] {
            Option::Some(s) => {
                r.push(s.clone());
            },
            Option::None => {},
        }
        i += 1;
        proof {
            let t = opts.deep_view().take(i as int);
            assert(t.drop_last() =~~= opts.deep_view().take(i - 1));
            assert(t.last() == opts.deep_view()[i - 1]);
            assert(r.deep_view() =~~= spec_options(t));
        }
    }
    proof {
        assert(opts.deep_view().take(i as int) =~~= opts.deep_view());
    }
    r
}

/// The option names of a radio group, as [`spec_radio_options`] gives them.
pub(crate) fn radio_options(kid_on: &Vec<Option<String>>) -> (r: Vec<String>)
    ensures
        r.deep_view() == spec_radio_options(kid_on.deep_view()),
{
    let mut r: Vec<String> = Vec::new();
    let mut i: usize = 0;
    while i < kid_on.len()
        invariant
            i <= kid_on@.len(),
            r.deep_view() =~~= spec_radio_options(kid_on.deep_view()).take(i as int),
        decreases kid_on@.len() - i,
    {
        let ghost prev = r.deep_view();
        let ghost expect = spec_radio_options(kid_on.deep_view())[i as int];
        match &kid_on[i] {
            Option::Some(s) => {
                r.push(s.clone());
            },
            Option::None => {
                r.push(usize_to_dec_string(i));
            },
        }
        i += 1;
        proof {
            assert(r.deep_view() =~~= prev.push(expect));
            assert(r.deep_view() =~~= spec_radio_options(kid_on.deep_view()).take(i as int));
        }
    }
    proof {
        assert(spec_radio_options(kid_on.deep_view()).take(i as int) =~~= spec_radio_options(
            kid_on.deep_view(),
        ));
    }
    r
}

/// The state snapshot that the record derives, one shape per kind.
pub open spec fn spec_state_of(rec: FieldRecV) -> FieldStateV {
    match spec_classify(rec.ft, rec.flags) {
        FieldType::Button => FieldStateV::Button,
        FieldType::Radio => FieldStateV::Radio {
            selected: spec_selected_name(rec),
            options: spec_radio_options(rec.kid_on),
            readonly: spec_read_only(rec.flags),
            required: spec_required(rec.flags),
        },
        FieldType::CheckBox => FieldStateV::CheckBox {
            is_checked: spec_is_checked(rec),
            readonly: spec_read_only(rec.flags),
            required: spec_required(rec.flags),
        },
        FieldType::ListBox => FieldStateV::ListBox {
            selected: spec_choice_selected(rec.value),
            options: spec_options(rec.opts),
            multiselect: spec_multiselect(rec.flags),
            readonly: spec_read_only(rec.flags),
            required: spec_required(rec.flags),
        },
        FieldType::ComboBox => FieldStateV::ComboBox {
            selected: spec_choice_selected(rec.value),
            options: spec_options(rec.opts),
            editable: spec_editable(rec.flags),
            readonly: spec_read_only(rec.flags),
            required: spec_required(rec.flags),
        },
        FieldType::Text => FieldStateV::Text {
            text: spec_text_value(rec.value),
            readonly: spec_read_only(rec.flags),
            required: spec_required(rec.flags),
        },
        FieldType::Unknown => FieldStateV::Unknown,
    }
}

/// Reconstructs the typed state snapshot of the record.
pub(crate) fn state_of(rec: &FieldRec) -> (s: FieldState)
    ensures
        s.deep_view() == spec_state_of(rec.deep_view()),
{
    let readonly = rec.flags & FLAG_READONLY != 0;
    let required = rec.flags & FLAG_REQUIRED != 0;
    let s = match classify(rec.ft, rec.flags) {
        FieldType::Button => FieldState::Button,
        FieldType::Radio => FieldState::Radio {
            selected: selected_name(rec),
            options: radio_options(&rec.kid_on),
            readonly,
            required,
        },
        FieldType::CheckBox => {
            let sel = selected_name(rec);
            FieldState::CheckBox { is_checked: str_eq_lit(&sel, "Yes"), readonly, required }
        },
        FieldType::ListBox => FieldState::ListBox {
            selected: choice_selected(rec),
            options: options_of(&rec.opts),
            multiselect: rec.flags & CH_MULTISELECT != 0,
            readonly,
            required,
        },
        FieldType::ComboBox => FieldState::ComboBox {
            selected: choice_selected(rec),
            options: options_of(&rec.opts),
            editable: rec.flags & CH_EDIT != 0,
            readonly,
            required,
        },
        FieldType::Text => {
            let text = match &rec.value {
                ValSnap::Str(s) => s.clone(),
                _ => String::new(),
            };
            proof {
                assert(text@ =~= spec_text_value(rec.deep_view().value));
            }
            FieldState::Text { text, readonly, required }
        },
        FieldType::Unknown => FieldState::Unknown,
    };
    proof {
        assert(s.deep_view() =~~= spec_state_of(rec.deep_view()));
    }
    s
}

} // verus!

//! The form: discovery of its terminal fields, typed reads, and validated
//! writes.
//!
//! A form owns the loaded document and an ordered list of record snapshots,
//! one per terminal field in discovery order; the list's length and order
//! never change after discovery. Reads are pure functions of the snapshots.
//! Writes first re-derive the field's kind from its snapshot, validate the
//! proposed value, and then update the snapshot and the document together;
//! the contracts state both the exact validation outcome and the exact new
//! snapshot list.

use vstd::prelude::*;
use vstd::string::{StrSliceExecFns, StringExecFns};

use crate::appearance::regenerate_text_appearance;
use crate::classify::{classify, spec_classify};
use crate::extract::{has_field_type, snap_field};
use crate::flags::{spec_editable, spec_multiselect};
use crate::model::{
    FieldRec, FieldRecV, FieldState, FieldType, LoadError, ValSnap, ValSnapV, ValueError,
};
use crate::pdfdoc::{
    clone_object, dict_get, doc_decompress, doc_raw_object, doc_save_bytes, doc_trailer_get,
    field_set_literal_string, field_set_name, field_set_null, field_set_string_array, obj_as_array,
    obj_as_dict, obj_reference_id,
};
use crate::state::{on_value, spec_on_value, spec_options, spec_radio_options, spec_state_of, state_of};

verus! {

/// The traversal refuses a field tree of more nodes than this, so that a
/// cyclic kid chain cannot make discovery run forever.
pub const MAX_FIELD_NODES: usize = 1000000;

/// The name written for an unchecked toggle, or chosen when checking one:
/// the field's configured on-state name when checked, `Off` otherwise.
pub open spec fn spec_check_name(rec: FieldRecV, is_checked: bool) -> Seq<char> {
    if is_checked {
        spec_on_value(rec)
    } else {
        "Off"@
    }
}

/// The value a list selection writes: null for none, a single string for
/// one, an array of strings for several.
pub open spec fn spec_list_value(choices: Seq<Seq<char>>) -> ValSnapV {
    if choices.len() == 0 {
        ValSnapV::Null
    } else if choices.len() == 1 {
        ValSnapV::Str(choices[0])
    } else {
        ValSnapV::StrArr(choices)
    }
}

/// Every proposed choice occurs among the options.
pub open spec fn spec_all_in(choices: Seq<Seq<char>>, options: Seq<Seq<char>>) -> bool {
    forall|i: int| 0 <= i < choices.len() ==> options.contains(#[trigger] choices[i])
}

/// Whether the string occurs in the list.
fn contains_string(v: &Vec<String>, s: &String) -> (r: bool)
    ensures
        r == v.deep_view().contains(s@),
{
    let mut i: usize = 0;
    while i < v.len()
        invariant
            i <= v@.len(),
            forall|j: int| 0 <= j < i ==> v.deep_view()[j] != s@,
        decreases v@.len() - i,
    {
        let hit = v[i] == *s;
        proof {
            assert(v.deep_view()[i as int] =~= v@[i as int]@);
        }
        if hit {
            proof {
                assert(v.deep_view()[i as int] == s@);
            }
            return true;
        }
        i += 1;
    }
    proof {
        if v.deep_view().contains(s@) {
            let w = choose|j: int| 0 <= j < v.deep_view().len() && v.deep_view()[j] == s@;
            assert(v.deep_view()[w] != s@);
        }
    }
    false
}

/// Whether every choice occurs among the options.
fn all_contained(choices: &Vec<String>, options: &Vec<String>) -> (r: bool)
    ensures
        r == spec_all_in(choices.deep_view(), options.deep_view()),
{
    let mut i: usize = 0;
    while i < choices.len()
        invariant
            i <= choices@.len(),
            forall|j: int| 0 <= j < i ==> options.deep_view().contains(
                #[trigger] choices.deep_view()[j],
            ),
        decreases choices@.len() - i,
    {
        if !contains_string(options, &choices[i]) {
            proof {
                assert(choices.deep_view()[i as int] =~= choices@[i as int]@);
                assert(!options.deep_view().contains(choices.deep_view()[i as int]));
            }
            return false;
        }
        proof {
            assert(choices.deep_view()[i as int] =~= choices@[i as int]@);
        }
        i += 1;
    }
    true
}

/// Replaces the current value of the record at `n`, leaving everything
/// else as it was.
fn set_rec_value(fields: &mut Vec<FieldRec>, n: usize, v: ValSnap)
    requires
        n < old(fields)@.len(),
    ensures
        final(fields).deep_view() == old(fields).deep_view().update(
            n as int,
            FieldRecV { value: v.deep_view(), ..old(fields).deep_view()[n as int] },
        ),
{
    let ghost dv0 = fields.deep_view();
    let mut rec = fields.remove(n);
    rec.value = v;
    fields.insert(n, rec);
    proof {
        assert(dv0[n as int] =~~= old(fields)@[n as int].deep_view());
        assert(fields.deep_view() =~~= dv0.update(
            n as int,
            FieldRecV { value: v.deep_view(), ..dv0[n as int] },
        ));
    }
}

/// Replaces the current value and the appearance state of the record at
/// `n` with the same name, leaving everything else as it was.
fn set_rec_checked(fields: &mut Vec<FieldRec>, n: usize, name: String)
    requires
        n < old(fields)@.len(),
    ensures
        final(fields).deep_view() == old(fields).deep_view().update(
            n as int,
            FieldRecV {
                value: ValSnapV::Name(name@),
                app_state: Option::Some(name@),
                ..old(fields).deep_view()[n as int]
            },
        ),
{
    let ghost dv0 = fields.deep_view();
    let mut rec = fields.remove(n);
    rec.app_state = Option::Some(name.clone());
    rec.value = ValSnap::Name(name);
    fields.insert(n, rec);
    proof {
        assert(fields.deep_view() =~~= dv0.update(
            n as int,
            FieldRecV {
                value: ValSnapV::Name(name@),
                app_state: Option::Some(name@),
                ..dv0[n as int]
            },
        ));
    }
}

/// Follows a reference to the object it names, with the identity followed.
/// A non-reference, and a reference that resolves to nothing, are the two
/// load-time failures.
fn resolve<'a>(doc: &'a lopdf::Document, o: &lopdf::Object) -> Result<
    ((u32, u16), &'a lopdf::Object),
    LoadError,
> {
    match obj_reference_id(o) {
        Option::Some(id) => match doc_raw_object(doc, id) {
            Option::Some(obj) => Ok((id, obj)),
            Option::None => Err(LoadError::NoSuchReference(id.0, id.1)),
        },
        Option::None => Err(LoadError::NotAReference),
    }
}

/// A loaded form: the document and one record snapshot per terminal field,
/// in discovery order.
pub struct Form {
    doc: lopdf::Document,
    fields: Vec<FieldRec>,
}

impl View for Form {
    type V = Seq<FieldRecV>;

    closed spec fn view(&self) -> Seq<FieldRecV> {
        self.fields.deep_view()
    }
}

impl Form {
    /// Discovers the form's terminal fields in the loaded document.
    ///
    /// The walk starts at the root catalog's form dictionary, taking its
    /// field array as the initial frontier, and proceeds breadth-first:
    /// each entry is followed to its record; a record carrying a type code
    /// is snapshotted as a terminal field, and the entries of its kid
    /// array, whether or not the record was terminal, join the frontier.
    /// The resulting order is the form's field order. Loading fails where
    /// the catalog, the form dictionary or its field array is absent or of
    /// the wrong shape, where an entry is not a reference, or where a
    /// reference resolves to nothing; a field tree of more than
    /// [`MAX_FIELD_NODES`] nodes is refused as well, so a loaded form
    /// never holds more fields than that. What the walk finds is decided
    /// by the opaque document, so no more is promised of the result.
    pub fn load_doc(doc: lopdf::Document) -> (r: Result<Form, LoadError>)
        ensures
            r matches Ok(form) ==> form@.len() <= MAX_FIELD_NODES,
    {
        let mut doc = doc;
        doc_decompress(&mut doc);
        let mut queue: Vec<lopdf::Object> = Vec::new();
        {
            let root_ref = match doc_trailer_get(&doc, "Root") {
                Option::Some(o) => o,
                Option::None => {
                    return Err(LoadError::LopdfError);
                },
            };
            let root_obj = match resolve(&doc, root_ref) {
                Ok(p) => p.1,
                Err(e) => {
                    return Err(e);
                },
            };
            let root_dict = match obj_as_dict(root_obj) {
                Option::Some(d) => d,
                Option::None => {
                    return Err(LoadError::LopdfError);
                },
            };
            let acro_ref = match dict_get(root_dict, "AcroForm") {
                Option::Some(o) => o,
                Option::None => {
                    return Err(LoadError::LopdfError);
                },
            };
            let acro_id = match obj_reference_id(acro_ref) {
                Option::Some(id) => id,
                Option::None => {
                    return Err(LoadError::LopdfError);
                },
            };
            let acro_obj = match doc_raw_object(&doc, acro_id) {
                Option::Some(o) => o,
                Option::None => {
                    return Err(LoadError::NotAReference);
                },
            };
            let acro_dict = match obj_as_dict(acro_obj) {
                Option::Some(d) => d,
                Option::None => {
                    return Err(LoadError::LopdfError);
                },
            };
            let farr = match dict_get(acro_dict, "Fields") {
                Option::Some(o) => match obj_as_array(o) {
                    Option::Some(a) => a,
                    Option::None => {
                        return Err(LoadError::LopdfError);
                    },
                },
                Option::None => {
                    return Err(LoadError::LopdfError);
                },
            };
            let mut k: usize = 0;
            while k < farr.len()
                invariant
                    queue@.len() <= MAX_FIELD_NODES,
                decreases farr@.len() - k,
            {
                if queue.len() >= MAX_FIELD_NODES {
                    return Err(LoadError::LopdfError);
                }
                queue.push(clone_object(&farr[k]));
                k += 1;
            }
        }
        let mut fields: Vec<FieldRec> = Vec::new();
        let mut qi: usize = 0;
        while qi < queue.len()
            invariant
                qi <= queue@.len(),
                queue@.len() <= MAX_FIELD_NODES,
                fields@.len() <= qi,
            decreases MAX_FIELD_NODES - qi,
        {
            let step = resolve(&doc, &queue[qi]);
            match step {
                Ok(p) => {
                    let id = p.0;
                    match obj_as_dict(p.1) {
                        Option::Some(dict) => {
                            if has_field_type(dict) {
                                let rec = snap_field(&doc, id, dict);
                                fields.push(rec);
                            }
                            match dict_get(dict, "Kids") {
                                Option::Some(kobj) => match obj_as_array(kobj) {
                                    Option::Some(kids) => {
                                        let mut k2: usize = 0;
                                        while k2 < kids.len()
                                            invariant
                                                qi < queue@.len(),
                                                queue@.len() <= MAX_FIELD_NODES,
                                            decreases kids@.len() - k2,
                                        {
                                            if queue.len() >= MAX_FIELD_NODES {
                                                return Err(LoadError::LopdfError);
                                            }
                                            queue.push(clone_object(&kids[k2]));
                                            k2 += 1;
                                        }
                                    },
                                    Option::None => {},
                                },
                                Option::None => {},
                            }
                        },
                        Option::None => {},
                    }
                },
                Err(e) => {
                    return Err(e);
                },
            }
            qi += 1;
        }
        let form = Form { doc, fields };
        proof {
            assert(form@.len() == form.fields@.len());
        }
        Ok(form)
    }

    /// The number of fields the form has.
    pub fn len(&self) -> (n: usize)
        ensures
            n == self@.len(),
    {
        self.fields.len()
    }

    /// Whether the form has no fields.
    pub fn is_empty(&self) -> (r: bool)
        ensures
            r == (self@.len() == 0),
    {
        self.fields.len() == 0
    }

    /// The kind of the field at `n`, re-derived from the record.
    pub fn get_type(&self, n: usize) -> (t: FieldType)
        requires
            n < self@.len(),
        ensures
            t == spec_classify(self@[n as int].ft, self@[n as int].flags),
    {
        proof {
            assert(self@[n as int] == self.fields@[n as int].deep_view());
        }
        let rec = &self.fields[n];
        classify(rec.ft, rec.flags)
    }

    /// The partial name of the field at `n`, where its record has one.
    pub fn get_name(&self, n: usize) -> (r: Option<String>)
        requires
            n < self@.len(),
        ensures
            r.deep_view() == self@[n as int].name,
    {
        proof {
            assert(self@[n as int] == self.fields@[n as int].deep_view());
        }
        match &self.fields[n].name {
            Option::Some(s) => Option::Some(s.clone()),
            Option::None => Option::None,
        }
    }

    /// The kinds of all fields, in field order.
    pub fn get_all_types(&self) -> (v: Vec<FieldType>)
        ensures
            v@.len() == self@.len(),
            forall|i: int|
                0 <= i < self@.len() ==> v@[i] == spec_classify(
                    self@[i].ft,
                    #[trigger] self@[i].flags,
                ),
    {
        let mut v: Vec<FieldType> = Vec::new();
        let mut i: usize = 0;
        while i < self.fields.len()
            invariant
                i <= self@.len(),
                v@.len() == i,
                forall|j: int|
                    0 <= j < i ==> v@[j] == spec_classify(self@[j].ft, #[trigger] self@[j].flags),
            decreases self@.len() - i,
        {
            v.push(self.get_type(i));
            i += 1;
        }
        v
    }

    /// The partial names of all fields, in field order.
    pub fn get_all_names(&self) -> (v: Vec<Option<String>>)
        ensures
            v@.len() == self@.len(),
            forall|i: int| 0 <= i < self@.len() ==> v.deep_view()[i] == #[trigger] self@[i].name,
    {
        let mut v: Vec<Option<String>> = Vec::new();
        let mut i: usize = 0;
        while i < self.fields.len()
            invariant
                i <= self@.len(),
                v@.len() == i,
                forall|j: int| 0 <= j < i ==> v.deep_view()[j] == #[trigger] self@[j].name,
            decreases self@.len() - i,
        {
            let name = self.get_name(i);
            v.push(name);
            proof {
                assert(v.deep_view()[i as int] == self@[i as int].name);
                assert(forall|j: int|
                    0 <= j < i ==> v.deep_view()[j] == #[trigger] self@[j].name);
            }
            i += 1;
        }
        v
    }

    /// The typed state snapshot of the field at `n`, re-read from the
    /// record on every call.
    pub fn get_state(&self, n: usize) -> (s: FieldState)
        requires
            n < self@.len(),
        ensures
            s.deep_view() == spec_state_of(self@[n as int]),
    {
        proof {
            assert(self@[n as int] == self.fields@[n as int].deep_view());
        }
        state_of(&self.fields[n])
    }

    /// Fills the text field at `n` with the text `s`.
    ///
    /// Succeeds exactly when the field's derived kind is text; the new
    /// value is committed even when the appearance stream could not be
    /// rebuilt afterwards. Any other kind is refused unchanged.
    pub fn set_text(&mut self, n: usize, s: String) -> (r: Result<(), ValueError>)
        requires
            n < old(self)@.len(),
        ensures
            match r {
                Result::Ok(_) => spec_classify(old(self)@[n as int].ft, old(self)@[n as int].flags)
                    == FieldType::Text && final(self)@ == old(self)@.update(
                    n as int,
                    FieldRecV { value: ValSnapV::Str(s@), ..old(self)@[n as int] },
                ),
                Result::Err(e) => e == ValueError::TypeMismatch && spec_classify(
                    old(self)@[n as int].ft,
                    old(self)@[n as int].flags,
                ) != FieldType::Text && final(self)@ == old(self)@,
            },
    {
        proof {
            assert(self@[n as int] == self.fields@[n as int].deep_view());
        }
        let t = {
            let rec = &self.fields[n];
            classify(rec.ft, rec.flags)
        };
        if t == FieldType::Text {
            let bytes = s.as_str().as_bytes_vec();
            let id = self.fields[n].id;
            set_rec_value(&mut self.fields, n, ValSnap::Str(s));
            proof {
                assert(self.fields.deep_view().len() == self.fields@.len());
            }
            let _ = field_set_literal_string(&mut self.doc, id, "V", bytes);
            let _ = regenerate_text_appearance(&mut self.doc, &self.fields[n]);
            Ok(())
        } else {
            Err(ValueError::TypeMismatch)
        }
    }

    /// Toggles the checkbox at `n`.
    ///
    /// Succeeds exactly when the field's derived kind is checkbox; both
    /// the value and the appearance state become the field's configured
    /// on-state name when checked, `Off` when unchecked. Any other kind is
    /// refused unchanged.
    pub fn set_check_box(&mut self, n: usize, is_checked: bool) -> (r: Result<(), ValueError>)
        requires
            n < old(self)@.len(),
        ensures
            match r {
                Result::Ok(_) => spec_classify(old(self)@[n as int].ft, old(self)@[n as int].flags)
                    == FieldType::CheckBox && final(self)@ == old(self)@.update(
                    n as int,
                    FieldRecV {
                        value: ValSnapV::Name(spec_check_name(old(self)@[n as int], is_checked)),
                        app_state: Option::Some(spec_check_name(old(self)@[n as int], is_checked)),
                        ..old(self)@[n as int]
                    },
                ),
                Result::Err(e) => e == ValueError::TypeMismatch && spec_classify(
                    old(self)@[n as int].ft,
                    old(self)@[n as int].flags,
                ) != FieldType::CheckBox && final(self)@ == old(self)@,
            },
    {
        proof {
            assert(self@[n as int] == self.fields@[n as int].deep_view());
        }
        let t = {
            let rec = &self.fields[n];
            classify(rec.ft, rec.flags)
        };
        if t == FieldType::CheckBox {
            let name: String = if is_checked {
                on_value(&self.fields[n])
            } else {
                String::from_str("Off")
            };
            let v_bytes = name.as_str().as_bytes_vec();
            let as_bytes = name.as_str().as_bytes_vec();
            let id = self.fields[n].id;
            set_rec_checked(&mut self.fields, n, name);
            let _ = field_set_name(&mut self.doc, id, "V", v_bytes);
            let _ = field_set_name(&mut self.doc, id, "AS", as_bytes);
            Ok(())
        } else {
            Err(ValueError::TypeMismatch)
        }
    }

    /// Selects the option named `choice` in the radio group at `n`.
    ///
    /// Succeeds exactly when the field's derived kind is radio and the
    /// choice is one of the group's current options; the choice becomes
    /// the current value. A wrong kind, or a choice outside the options,
    /// is refused unchanged.
    pub fn set_radio(&mut self, n: usize, choice: String) -> (r: Result<(), ValueError>)
        requires
            n < old(self)@.len(),
        ensures
            match r {
                Result::Ok(_) => spec_classify(old(self)@[n as int].ft, old(self)@[n as int].flags)
                    == FieldType::Radio && spec_radio_options(old(self)@[n as int].kid_on).contains(
                    choice@,
                ) && final(self)@ == old(self)@.update(
                    n as int,
                    FieldRecV { value: ValSnapV::Name(choice@), ..old(self)@[n as int] },
                ),
                Result::Err(e) => final(self)@ == old(self)@ && match e {
                    ValueError::TypeMismatch => spec_classify(
                        old(self)@[n as int].ft,
                        old(self)@[n as int].flags,
                    ) != FieldType::Radio,
                    ValueError::InvalidSelection => spec_classify(
                        old(self)@[n as int].ft,
                        old(self)@[n as int].flags,
                    ) == FieldType::Radio && !spec_radio_options(
                        old(self)@[n as int].kid_on,
                    ).contains(choice@),
                    _ => false,
                },
            },
    {
        proof {
            assert(self@[n as int] == self.fields@[n as int].deep_view());
        }
        let t = {
            let rec = &self.fields[n];
            classify(rec.ft, rec.flags)
        };
        if t == FieldType::Radio {
            let options = crate::state::radio_options(&self.fields[n].kid_on);
            if contains_string(&options, &choice) {
                let bytes = choice.as_str().as_bytes_vec();
                let id = self.fields[n].id;
                set_rec_value(&mut self.fields, n, ValSnap::Name(choice));
                let _ = field_set_name(&mut self.doc, id, "V", bytes);
                Ok(())
            } else {
                Err(ValueError::InvalidSelection)
            }
        } else {
            Err(ValueError::TypeMismatch)
        }
    }

    /// Selects the options in `choices` in the list box at `n`.
    ///
    /// Succeeds exactly when the field's derived kind is list box, every
    /// choice is among the current options, and at most one choice is
    /// given unless the field is multiselect; no choice clears the value,
    /// one is stored as a string, several as an array. A wrong kind, an
    /// unknown choice, or too many choices are refused unchanged, in that
    /// order of checks.
    pub fn set_list_box(&mut self, n: usize, choices: Vec<String>) -> (r: Result<(), ValueError>)
        requires
            n < old(self)@.len(),
        ensures
            match r {
                Result::Ok(_) => spec_classify(old(self)@[n as int].ft, old(self)@[n as int].flags)
                    == FieldType::ListBox && spec_all_in(
                    choices.deep_view(),
                    spec_options(old(self)@[n as int].opts),
                ) && (spec_multiselect(old(self)@[n as int].flags) || choices@.len() <= 1)
                    && final(self)@ == old(self)@.update(
                    n as int,
                    FieldRecV {
                        value: spec_list_value(choices.deep_view()),
                        ..old(self)@[n as int]
                    },
                ),
                Result::Err(e) => final(self)@ == old(self)@ && match e {
                    ValueError::TypeMismatch => spec_classify(
                        old(self)@[n as int].ft,
                        old(self)@[n as int].flags,
                    ) != FieldType::ListBox,
                    ValueError::InvalidSelection => spec_classify(
                        old(self)@[n as int].ft,
                        old(self)@[n as int].flags,
                    ) == FieldType::ListBox && !spec_all_in(
                        choices.deep_view(),
                        spec_options(old(self)@[n as int].opts),
                    ),
                    ValueError::TooManySelected => spec_classify(
                        old(self)@[n as int].ft,
                        old(self)@[n as int].flags,
                    ) == FieldType::ListBox && spec_all_in(
                        choices.deep_view(),
                        spec_options(old(self)@[n as int].opts),
                    ) && !spec_multiselect(old(self)@[n as int].flags) && choices@.len() > 1,
                    _ => false,
                },
            },
    {
        proof {
            assert(self@[n as int] == self.fields@[n as int].deep_view());
        }
        let t = {
            let rec = &self.fields[n];
            classify(rec.ft, rec.flags)
        };
        if t != FieldType::ListBox {
            return Err(ValueError::TypeMismatch);
        }
        let options = crate::state::options_of(&self.fields[n].opts);
        if !all_contained(&choices, &options) {
            return Err(ValueError::InvalidSelection);
        }
        let multiselect = {
            let rec = &self.fields[n];
            rec.flags & crate::flags::CH_MULTISELECT != 0
        };
        if !multiselect && choices.len() > 1 {
            return Err(ValueError::TooManySelected);
        }
        let id = self.fields[n].id;
        if choices.len() == 0 {
            set_rec_value(&mut self.fields, n, ValSnap::Null);
            let _ = field_set_null(&mut self.doc, id, "V");
        } else if choices.len() == 1 {
            let mut choices = choices;
            let s0 = choices.remove(0);
            let bytes = s0.as_str().as_bytes_vec();
            set_rec_value(&mut self.fields, n, ValSnap::Str(s0));
            let _ = field_set_literal_string(&mut self.doc, id, "V", bytes);
        } else {
            let mut all_bytes: Vec<Vec<u8>> = Vec::new();
            let mut i: usize = 0;
            while i < choices.len()
                invariant
                    i <= choices@.len(),
                decreases choices@.len() - i,
            {
                all_bytes.push(choices[i].as_str().as_bytes_vec());
                i += 1;
            }
            set_rec_value(&mut self.fields, n, ValSnap::StrArr(choices));
            let _ = field_set_string_array(&mut self.doc, id, "V", all_bytes);
        }
        Ok(())
    }

    /// Selects the option named `choice` in the combo box at `n`.
    ///
    /// Succeeds exactly when the field's derived kind is combo box and the
    /// choice is among the current options or the box is editable; the
    /// choice is stored as a string. A wrong kind, or an unknown choice on
    /// a non-editable box, is refused unchanged.
    pub fn set_combo_box(&mut self, n: usize, choice: String) -> (r: Result<(), ValueError>)
        requires
            n < old(self)@.len(),
        ensures
            match r {
                Result::Ok(_) => spec_classify(old(self)@[n as int].ft, old(self)@[n as int].flags)
                    == FieldType::ComboBox && (spec_options(old(self)@[n as int].opts).contains(
                    choice@,
                ) || spec_editable(old(self)@[n as int].flags)) && final(self)@ == old(
                    self,
                )@.update(
                    n as int,
                    FieldRecV { value: ValSnapV::Str(choice@), ..old(self)@[n as int] },
                ),
                Result::Err(e) => final(self)@ == old(self)@ && match e {
                    ValueError::TypeMismatch => spec_classify(
                        old(self)@[n as int].ft,
                        old(self)@[n as int].flags,
                    ) != FieldType::ComboBox,
                    ValueError::InvalidSelection => spec_classify(
                        old(self)@[n as int].ft,
                        old(self)@[n as int].flags,
                    ) == FieldType::ComboBox && !spec_options(
                        old(self)@[n as int].opts,
                    ).contains(choice@) && !spec_editable(old(self)@[n as int].flags),
                    _ => false,
                },
            },
    {
        proof {
            assert(self@[n as int] == self.fields@[n as int].deep_view());
        }
        let t = {
            let rec = &self.fields[n];
            classify(rec.ft, rec.flags)
        };
        if t != FieldType::ComboBox {
            return Err(ValueError::TypeMismatch);
        }
        let options = crate::state::options_of(&self.fields[n].opts);
        let editable = {
            let rec = &self.fields[n];
            rec.flags & crate::flags::CH_EDIT != 0
        };
        if contains_string(&options, &choice) || editable {
            let bytes = choice.as_str().as_bytes_vec();
            let id = self.fields[n].id;
            set_rec_value(&mut self.fields, n, ValSnap::Str(choice));
            let _ = field_set_literal_string(&mut self.doc, id, "V", bytes);
            Ok(())
        } else {
            Err(ValueError::InvalidSelection)
        }
    }

    /// Serializes the whole document, with every edit applied, into bytes.
    /// The field list is untouched.
    pub fn save_bytes(&mut self) -> (r: Option<Vec<u8>>)
        ensures
            final(self)@ == old(self)@,
    {
        doc_save_bytes(&mut self.doc)
    }
}

} // verus!

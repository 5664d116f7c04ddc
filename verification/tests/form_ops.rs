use lopdf::{Dictionary, Document, Object, ObjectId, Stream};
use pdf_forms::{FieldState, FieldType, Form, LoadError, ValueError};

fn attach_form(doc: &mut Document, field_refs: Vec<Object>) {
    let mut acro = Dictionary::new();
    acro.set("Fields", Object::Array(field_refs));
    let acro_id = doc.add_object(Object::Dictionary(acro));
    let mut catalog = Dictionary::new();
    catalog.set("Type", Object::Name(b"Catalog".to_vec()));
    catalog.set("AcroForm", Object::Reference(acro_id));
    let cat_id = doc.add_object(Object::Dictionary(catalog));
    doc.trailer.set("Root", Object::Reference(cat_id));
}

fn text_field(doc: &mut Document, da: Option<&str>, with_ap: bool) -> (ObjectId, Option<ObjectId>) {
    let ap_id = if with_ap {
        let stream = Stream::new(Dictionary::new(), b"BT /F1 9 Tf (old) Tj ET".to_vec());
        Some(doc.add_object(Object::Stream(stream)))
    } else {
        None
    };
    let mut f = Dictionary::new();
    f.set("FT", Object::Name(b"Tx".to_vec()));
    f.set("T", Object::string_literal("text1"));
    if let Some(da) = da {
        f.set("DA", Object::string_literal(da));
    }
    f.set(
        "Rect",
        Object::Array(vec![0.into(), 0.into(), 200.into(), 50.into()]),
    );
    if let Some(ap_id) = ap_id {
        let mut ap = Dictionary::new();
        ap.set("N", Object::Reference(ap_id));
        f.set("AP", Object::Dictionary(ap));
    }
    (doc.add_object(Object::Dictionary(f)), ap_id)
}

fn checkbox_field(doc: &mut Document, on_key: Option<&str>) -> ObjectId {
    let mut f = Dictionary::new();
    f.set("FT", Object::Name(b"Btn".to_vec()));
    if let Some(on) = on_key {
        let mut n = Dictionary::new();
        n.set("Off", Object::Null);
        n.set(on, Object::Null);
        let mut ap = Dictionary::new();
        ap.set("N", Object::Dictionary(n));
        f.set("AP", Object::Dictionary(ap));
    }
    doc.add_object(Object::Dictionary(f))
}

fn radio_field(doc: &mut Document, kid_keys: Vec<Option<&str>>) -> ObjectId {
    let mut kid_refs: Vec<Object> = Vec::new();
    for k in kid_keys {
        let mut kd = Dictionary::new();
        if let Some(key) = k {
            let mut n = Dictionary::new();
            n.set("Off", Object::Null);
            n.set(key, Object::Null);
            let mut ap = Dictionary::new();
            ap.set("N", Object::Dictionary(n));
            kd.set("AP", Object::Dictionary(ap));
        }
        kid_refs.push(Object::Reference(doc.add_object(Object::Dictionary(kd))));
    }
    let mut f = Dictionary::new();
    f.set("FT", Object::Name(b"Btn".to_vec()));
    f.set("Ff", Object::Integer(0x10000));
    f.set("Kids", Object::Array(kid_refs));
    doc.add_object(Object::Dictionary(f))
}

fn choice_field(doc: &mut Document, flags: i64, opts: Vec<&str>) -> ObjectId {
    let mut f = Dictionary::new();
    f.set("FT", Object::Name(b"Ch".to_vec()));
    f.set("Ff", Object::Integer(flags));
    let entries: Vec<Object> = opts.into_iter().map(Object::string_literal).collect();
    f.set("Opt", Object::Array(entries));
    doc.add_object(Object::Dictionary(f))
}

fn load(doc: Document) -> Form {
    Form::load_doc(doc).expect("the form should load")
}

#[test]
fn discovery_counts_terminals_across_depths() {
    let mut doc = Document::with_version("1.5");
    let (leaf1, _) = text_field(&mut doc, None, false);
    let (leaf2, _) = text_field(&mut doc, None, false);
    let mut mid = Dictionary::new();
    mid.set(
        "Kids",
        Object::Array(vec![Object::Reference(leaf1), Object::Reference(leaf2)]),
    );
    let mid_id = doc.add_object(Object::Dictionary(mid));
    let mut parent = Dictionary::new();
    parent.set("Kids", Object::Array(vec![Object::Reference(mid_id)]));
    let parent_id = doc.add_object(Object::Dictionary(parent));
    let (top, _) = text_field(&mut doc, None, false);
    attach_form(
        &mut doc,
        vec![Object::Reference(parent_id), Object::Reference(top)],
    );
    let form = load(doc);
    assert_eq!(form.len(), 3);
    assert!(!form.is_empty());
    for i in 0..form.len() {
        assert!(matches!(form.get_type(i), FieldType::Text));
    }
}

#[test]
fn discovery_records_mixed_terminal_and_parent_once() {
    let mut doc = Document::with_version("1.5");
    let radio = radio_field(&mut doc, vec![Some("A"), Some("B")]);
    attach_form(&mut doc, vec![Object::Reference(radio)]);
    let form = load(doc);
    assert_eq!(form.len(), 1);
    assert!(matches!(form.get_type(0), FieldType::Radio));
}

#[test]
fn classification_radio_beats_pushbutton() {
    let mut doc = Document::with_version("1.5");
    let mut f = Dictionary::new();
    f.set("FT", Object::Name(b"Btn".to_vec()));
    f.set("Ff", Object::Integer(0x30000));
    let id = doc.add_object(Object::Dictionary(f));
    attach_form(&mut doc, vec![Object::Reference(id)]);
    let form = load(doc);
    assert!(matches!(form.get_type(0), FieldType::Radio));
}

#[test]
fn classification_covers_every_kind() {
    let mut doc = Document::with_version("1.5");
    let mut push = Dictionary::new();
    push.set("FT", Object::Name(b"Btn".to_vec()));
    push.set("Ff", Object::Integer(0x20000));
    let push_id = doc.add_object(Object::Dictionary(push));
    let check = checkbox_field(&mut doc, None);
    let listbox = choice_field(&mut doc, 0, vec!["A"]);
    let combo = choice_field(&mut doc, 0x20000, vec!["A"]);
    let (text, _) = text_field(&mut doc, None, false);
    let mut other = Dictionary::new();
    other.set("FT", Object::Name(b"Sig".to_vec()));
    let other_id = doc.add_object(Object::Dictionary(other));
    attach_form(
        &mut doc,
        vec![
            Object::Reference(push_id),
            Object::Reference(check),
            Object::Reference(listbox),
            Object::Reference(combo),
            Object::Reference(text),
            Object::Reference(other_id),
        ],
    );
    let form = load(doc);
    let types = form.get_all_types();
    assert!(matches!(types[0], FieldType::Button));
    assert!(matches!(types[1], FieldType::CheckBox));
    assert!(matches!(types[2], FieldType::ListBox));
    assert!(matches!(types[3], FieldType::ComboBox));
    assert!(matches!(types[4], FieldType::Text));
    assert!(matches!(types[5], FieldType::Unknown));
}

#[test]
fn text_round_trip_through_state_and_reload() {
    let mut doc = Document::with_version("1.5");
    let (id, _) = text_field(&mut doc, Some("/Helv 12 Tf 0 g"), true);
    attach_form(&mut doc, vec![Object::Reference(id)]);
    let mut form = load(doc);
    assert!(form.set_text(0, "hello".to_string()).is_ok());
    match form.get_state(0) {
        FieldState::Text { text, .. } => assert_eq!(text, "hello"),
        other => panic!("expected a text state, got {:?}", other),
    }
    let bytes = form.save_bytes().expect("the document should serialize");
    let doc2 = Document::load_from(bytes.as_slice()).expect("the bytes should parse");
    let form2 = load(doc2);
    match form2.get_state(0) {
        FieldState::Text { text, .. } => assert_eq!(text, "hello"),
        other => panic!("expected a text state, got {:?}", other),
    }
}

#[test]
fn set_text_on_non_text_field_is_a_type_mismatch() {
    let mut doc = Document::with_version("1.5");
    let check = checkbox_field(&mut doc, None);
    attach_form(&mut doc, vec![Object::Reference(check)]);
    let mut form = load(doc);
    assert!(matches!(
        form.set_text(0, "x".to_string()),
        Err(ValueError::TypeMismatch)
    ));
}

#[test]
fn list_selection_validation_and_read_back() {
    let mut doc = Document::with_version("1.5");
    let id = choice_field(&mut doc, 0, vec!["A", "B", "C"]);
    attach_form(&mut doc, vec![Object::Reference(id)]);
    let mut form = load(doc);
    assert!(matches!(
        form.set_list_box(0, vec!["A".to_string(), "B".to_string()]),
        Err(ValueError::TooManySelected)
    ));
    assert!(matches!(
        form.set_list_box(0, vec!["Z".to_string()]),
        Err(ValueError::InvalidSelection)
    ));
    assert!(form.set_list_box(0, vec!["A".to_string()]).is_ok());
    match form.get_state(0) {
        FieldState::ListBox {
            selected,
            options,
            multiselect,
            ..
        } => {
            assert_eq!(selected, vec!["A".to_string()]);
            assert_eq!(
                options,
                vec!["A".to_string(), "B".to_string(), "C".to_string()]
            );
            assert!(!multiselect);
        }
        other => panic!("expected a list state, got {:?}", other),
    }
}

#[test]
fn multiselect_list_accepts_several_and_none() {
    let mut doc = Document::with_version("1.5");
    let id = choice_field(&mut doc, 0x200000, vec!["A", "B", "C"]);
    attach_form(&mut doc, vec![Object::Reference(id)]);
    let mut form = load(doc);
    assert!(form
        .set_list_box(0, vec!["A".to_string(), "C".to_string()])
        .is_ok());
    match form.get_state(0) {
        FieldState::ListBox { selected, .. } => {
            assert_eq!(selected, vec!["A".to_string(), "C".to_string()]);
        }
        other => panic!("expected a list state, got {:?}", other),
    }
    assert!(form.set_list_box(0, Vec::new()).is_ok());
    match form.get_state(0) {
        FieldState::ListBox { selected, .. } => assert!(selected.is_empty()),
        other => panic!("expected a list state, got {:?}", other),
    }
}

#[test]
fn checkbox_on_value_comes_from_appearance_keys() {
    let mut doc = Document::with_version("1.5");
    let id = checkbox_field(&mut doc, Some("X"));
    attach_form(&mut doc, vec![Object::Reference(id)]);
    let mut form = load(doc);
    assert!(form.set_check_box(0, true).is_ok());
    let bytes = form.save_bytes().expect("the document should serialize");
    let doc2 = Document::load_from(bytes.as_slice()).expect("the bytes should parse");
    let field = doc2.get_object(id).unwrap().as_dict().unwrap();
    assert_eq!(field.get(b"V").unwrap().as_name().unwrap(), b"X");
    assert_eq!(field.get(b"AS").unwrap().as_name().unwrap(), b"X");
}

#[test]
fn checkbox_without_appearance_defaults_to_yes() {
    let mut doc = Document::with_version("1.5");
    let id = checkbox_field(&mut doc, None);
    attach_form(&mut doc, vec![Object::Reference(id)]);
    let mut form = load(doc);
    assert!(form.set_check_box(0, true).is_ok());
    match form.get_state(0) {
        FieldState::CheckBox { is_checked, .. } => assert!(is_checked),
        other => panic!("expected a checkbox state, got {:?}", other),
    }
    assert!(form.set_check_box(0, false).is_ok());
    match form.get_state(0) {
        FieldState::CheckBox { is_checked, .. } => assert!(!is_checked),
        other => panic!("expected a checkbox state, got {:?}", other),
    }
}

#[test]
fn state_reads_are_idempotent() {
    let mut doc = Document::with_version("1.5");
    let radio = radio_field(&mut doc, vec![Some("A"), None]);
    let listbox = choice_field(&mut doc, 0, vec!["A", "B"]);
    let (text, _) = text_field(&mut doc, None, false);
    attach_form(
        &mut doc,
        vec![
            Object::Reference(radio),
            Object::Reference(listbox),
            Object::Reference(text),
        ],
    );
    let form = load(doc);
    for i in 0..form.len() {
        assert_eq!(form.get_state(i), form.get_state(i));
    }
}

#[test]
fn radio_options_fall_back_to_positions() {
    let mut doc = Document::with_version("1.5");
    let id = radio_field(&mut doc, vec![Some("On1"), None, Some("On3")]);
    attach_form(&mut doc, vec![Object::Reference(id)]);
    let mut form = load(doc);
    match form.get_state(0) {
        FieldState::Radio {
            selected, options, ..
        } => {
            assert_eq!(selected, "");
            assert_eq!(
                options,
                vec!["On1".to_string(), "1".to_string(), "On3".to_string()]
            );
        }
        other => panic!("expected a radio state, got {:?}", other),
    }
    assert!(matches!(
        form.set_radio(0, "Nope".to_string()),
        Err(ValueError::InvalidSelection)
    ));
    assert!(form.set_radio(0, "On1".to_string()).is_ok());
    match form.get_state(0) {
        FieldState::Radio { selected, .. } => assert_eq!(selected, "On1"),
        other => panic!("expected a radio state, got {:?}", other),
    }
    assert!(form.set_radio(0, "1".to_string()).is_ok());
    match form.get_state(0) {
        FieldState::Radio { selected, .. } => assert_eq!(selected, "1"),
        other => panic!("expected a radio state, got {:?}", other),
    }
}

#[test]
fn combo_box_respects_options_and_editability() {
    let mut doc = Document::with_version("1.5");
    let plain = choice_field(&mut doc, 0x20000, vec!["A", "B"]);
    let editable = choice_field(&mut doc, 0x20000 | 0x40000, vec!["A"]);
    attach_form(
        &mut doc,
        vec![Object::Reference(plain), Object::Reference(editable)],
    );
    let mut form = load(doc);
    assert!(matches!(
        form.set_combo_box(0, "Z".to_string()),
        Err(ValueError::InvalidSelection)
    ));
    assert!(form.set_combo_box(0, "B".to_string()).is_ok());
    match form.get_state(0) {
        FieldState::ComboBox {
            selected, editable, ..
        } => {
            assert_eq!(selected, vec!["B".to_string()]);
            assert!(!editable);
        }
        other => panic!("expected a combo state, got {:?}", other),
    }
    assert!(form.set_combo_box(1, "free text".to_string()).is_ok());
    match form.get_state(1) {
        FieldState::ComboBox {
            selected, editable, ..
        } => {
            assert_eq!(selected, vec!["free text".to_string()]);
            assert!(editable);
        }
        other => panic!("expected a combo state, got {:?}", other),
    }
}

#[test]
fn names_and_flags_are_reported() {
    let mut doc = Document::with_version("1.5");
    let (named, _) = text_field(&mut doc, None, false);
    let mut anon = Dictionary::new();
    anon.set("FT", Object::Name(b"Tx".to_vec()));
    anon.set("Ff", Object::Integer(3));
    let anon_id = doc.add_object(Object::Dictionary(anon));
    attach_form(
        &mut doc,
        vec![Object::Reference(named), Object::Reference(anon_id)],
    );
    let form = load(doc);
    let names = form.get_all_names();
    assert_eq!(names[0], Some("text1".to_string()));
    assert_eq!(names[1], None);
    match form.get_state(1) {
        FieldState::Text {
            readonly, required, ..
        } => {
            assert!(readonly);
            assert!(required);
        }
        other => panic!("expected a text state, got {:?}", other),
    }
}

#[test]
fn load_fails_without_a_form_dictionary() {
    let mut doc = Document::with_version("1.5");
    let mut catalog = Dictionary::new();
    catalog.set("Type", Object::Name(b"Catalog".to_vec()));
    let cat_id = doc.add_object(Object::Dictionary(catalog));
    doc.trailer.set("Root", Object::Reference(cat_id));
    assert!(matches!(
        Form::load_doc(doc),
        Err(LoadError::LopdfError)
    ));
}

#[test]
fn load_fails_on_a_field_entry_that_is_no_reference() {
    let mut doc = Document::with_version("1.5");
    let mut inline = Dictionary::new();
    inline.set("FT", Object::Name(b"Tx".to_vec()));
    attach_form(&mut doc, vec![Object::Dictionary(inline)]);
    assert!(matches!(
        Form::load_doc(doc),
        Err(LoadError::NotAReference)
    ));
}

#[test]
fn load_fails_on_a_dangling_reference() {
    let mut doc = Document::with_version("1.5");
    attach_form(&mut doc, vec![Object::Reference((997, 0))]);
    match Form::load_doc(doc) {
        Err(LoadError::NoSuchReference(num, generation)) => {
            assert_eq!(num, 997);
            assert_eq!(generation, 0);
        }
        Err(other) => panic!("expected a dangling-reference error, got {:?}", other),
        Ok(_) => panic!("expected a dangling-reference error, got a form"),
    }
}

use lopdf::{Dictionary, Document, Object, StringFormat};
use pdf_forms::{FieldState, Form};

fn single_field_form(field: Dictionary) -> Form {
    let mut doc = Document::with_version("1.5");
    let field_id = doc.add_object(Object::Dictionary(field));
    let mut acro = Dictionary::new();
    acro.set("Fields", Object::Array(vec![Object::Reference(field_id)]));
    let acro_id = doc.add_object(Object::Dictionary(acro));
    let mut catalog = Dictionary::new();
    catalog.set("Type", Object::Name(b"Catalog".to_vec()));
    catalog.set("AcroForm", Object::Reference(acro_id));
    let cat_id = doc.add_object(Object::Dictionary(catalog));
    doc.trailer.set("Root", Object::Reference(cat_id));
    Form::load_doc(doc).expect("the form should load")
}

#[test]
fn radio_selection_falls_back_to_the_appearance_state() {
    let mut f = Dictionary::new();
    f.set("FT", Object::Name(b"Btn".to_vec()));
    f.set("Ff", Object::Integer(0x10000));
    f.set("AS", Object::Name(b"B".to_vec()));
    let form = single_field_form(f);
    match form.get_state(0) {
        FieldState::Radio { selected, .. } => assert_eq!(selected, "B"),
        other => panic!("expected a radio state, got {:?}", other),
    }
}

#[test]
fn checkbox_reads_the_yes_appearance_state() {
    let mut f = Dictionary::new();
    f.set("FT", Object::Name(b"Btn".to_vec()));
    f.set("AS", Object::Name(b"Yes".to_vec()));
    let form = single_field_form(f);
    match form.get_state(0) {
        FieldState::CheckBox { is_checked, .. } => assert!(is_checked),
        other => panic!("expected a checkbox state, got {:?}", other),
    }
}

#[test]
fn checkbox_value_name_takes_precedence_over_the_appearance_state() {
    let mut f = Dictionary::new();
    f.set("FT", Object::Name(b"Btn".to_vec()));
    f.set("V", Object::Name(b"Off".to_vec()));
    f.set("AS", Object::Name(b"Yes".to_vec()));
    let form = single_field_form(f);
    match form.get_state(0) {
        FieldState::CheckBox { is_checked, .. } => assert!(!is_checked),
        other => panic!("expected a checkbox state, got {:?}", other),
    }
}

#[test]
fn list_box_reads_single_and_array_values() {
    let mut single = Dictionary::new();
    single.set("FT", Object::Name(b"Ch".to_vec()));
    single.set("V", Object::string_literal("A"));
    single.set(
        "Opt",
        Object::Array(vec![Object::string_literal("A"), Object::string_literal("B")]),
    );
    let form = single_field_form(single);
    match form.get_state(0) {
        FieldState::ListBox { selected, .. } => assert_eq!(selected, vec!["A".to_string()]),
        other => panic!("expected a list state, got {:?}", other),
    }

    let mut multi = Dictionary::new();
    multi.set("FT", Object::Name(b"Ch".to_vec()));
    multi.set(
        "V",
        Object::Array(vec![
            Object::string_literal("A"),
            Object::String(b"skip".to_vec(), StringFormat::Hexadecimal),
            Object::string_literal("B"),
        ]),
    );
    let form = single_field_form(multi);
    match form.get_state(0) {
        FieldState::ListBox { selected, .. } => {
            assert_eq!(selected, vec!["A".to_string(), "B".to_string()]);
        }
        other => panic!("expected a list state, got {:?}", other),
    }

    let mut absent = Dictionary::new();
    absent.set("FT", Object::Name(b"Ch".to_vec()));
    let form = single_field_form(absent);
    match form.get_state(0) {
        FieldState::ListBox { selected, .. } => assert!(selected.is_empty()),
        other => panic!("expected a list state, got {:?}", other),
    }
}

#[test]
fn options_take_the_second_element_of_pair_entries_and_skip_the_rest() {
    let mut f = Dictionary::new();
    f.set("FT", Object::Name(b"Ch".to_vec()));
    f.set(
        "Opt",
        Object::Array(vec![
            Object::Array(vec![Object::string_literal("x"), Object::string_literal("A")]),
            Object::string_literal("B"),
            Object::string_literal(""),
            Object::Integer(7),
            Object::Array(vec![Object::string_literal("lonely")]),
        ]),
    );
    let mut form = single_field_form(f);
    match form.get_state(0) {
        FieldState::ListBox { options, .. } => {
            assert_eq!(
                options,
                vec!["A".to_string(), "B".to_string(), "".to_string()]
            );
        }
        other => panic!("expected a list state, got {:?}", other),
    }
    assert!(form.set_list_box(0, vec!["".to_string()]).is_ok());
    match form.get_state(0) {
        FieldState::ListBox { selected, .. } => assert_eq!(selected, vec!["".to_string()]),
        other => panic!("expected a list state, got {:?}", other),
    }
}

#[test]
fn text_state_is_empty_for_a_missing_value() {
    let mut f = Dictionary::new();
    f.set("FT", Object::Name(b"Tx".to_vec()));
    let form = single_field_form(f);
    match form.get_state(0) {
        FieldState::Text { text, .. } => assert_eq!(text, ""),
        other => panic!("expected a text state, got {:?}", other),
    }
}

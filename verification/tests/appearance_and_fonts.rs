use lopdf::content::Content;
use lopdf::{Dictionary, Document, Object, ObjectId, Stream};
use pdf_forms::{is_read_only, is_required, parse_font, FieldState, Form};

fn doc_with_text_field(da: Option<&str>) -> (Document, ObjectId, ObjectId) {
    let mut doc = Document::with_version("1.5");
    let stream = Stream::new(Dictionary::new(), b"BT /F1 9 Tf (old) Tj ET".to_vec());
    let ap_id = doc.add_object(Object::Stream(stream));
    let mut f = Dictionary::new();
    f.set("FT", Object::Name(b"Tx".to_vec()));
    if let Some(da) = da {
        f.set("DA", Object::string_literal(da));
    }
    f.set(
        "Rect",
        Object::Array(vec![0.into(), 0.into(), 200.into(), 50.into()]),
    );
    let mut ap = Dictionary::new();
    ap.set("N", Object::Reference(ap_id));
    f.set("AP", Object::Dictionary(ap));
    let field_id = doc.add_object(Object::Dictionary(f));
    let mut acro = Dictionary::new();
    acro.set("Fields", Object::Array(vec![Object::Reference(field_id)]));
    let acro_id = doc.add_object(Object::Dictionary(acro));
    let mut catalog = Dictionary::new();
    catalog.set("Type", Object::Name(b"Catalog".to_vec()));
    catalog.set("AcroForm", Object::Reference(acro_id));
    let cat_id = doc.add_object(Object::Dictionary(catalog));
    doc.trailer.set("Root", Object::Reference(cat_id));
    (doc, field_id, ap_id)
}

fn regenerated_ops(da: Option<&str>, text: &str) -> Vec<lopdf::content::Operation> {
    let (doc, _, ap_id) = doc_with_text_field(da);
    let mut form = Form::load_doc(doc).expect("the form should load");
    assert!(form.set_text(0, text.to_string()).is_ok());
    let bytes = form.save_bytes().expect("the document should serialize");
    let doc2 = Document::load_from(bytes.as_slice()).expect("the bytes should parse");
    let stream = doc2.get_object(ap_id).unwrap().as_stream().unwrap();
    let data = stream
        .decompressed_content()
        .unwrap_or_else(|_| stream.content.clone());
    Content::decode(&data).expect("the stream should decode").operations
}

fn operators(ops: &[lopdf::content::Operation]) -> Vec<String> {
    ops.iter().map(|op| op.operator.clone()).collect()
}

#[test]
fn regeneration_rewrites_the_stream_from_the_appearance_string() {
    let ops = regenerated_ops(Some("/Courier 10 Tf 0 g"), "hi");
    assert_eq!(
        operators(&ops),
        vec!["BMC", "q", "BT", "Tf", "g", "Tm", "Tj", "ET", "Q", "EMC"]
    );
    assert_eq!(ops[3].operands[0], Object::Name(b"Courier".to_vec()));
    assert_eq!(ops[3].operands[1], Object::Integer(10));
    assert_eq!(ops[6].operands[0], Object::string_literal("hi"));
}

#[test]
fn regeneration_falls_back_to_the_default_font_on_a_malformed_appearance_string() {
    let ops = regenerated_ops(Some("nonsense"), "hi");
    assert_eq!(
        operators(&ops),
        vec!["BMC", "q", "BT", "Tf", "g", "Tm", "Tj", "ET", "Q", "EMC"]
    );
    assert_eq!(ops[3].operands[0], Object::Name(b"Helv".to_vec()));
    assert_eq!(ops[3].operands[1], Object::Integer(12));
    assert_eq!(ops[6].operands[0], Object::string_literal("hi"));
}

#[test]
fn regeneration_falls_back_to_the_defaults_on_an_absent_appearance_string() {
    let ops = regenerated_ops(None, "hi");
    assert_eq!(
        operators(&ops),
        vec!["BMC", "q", "BT", "Tf", "g", "Tm", "Tj", "ET", "Q", "EMC"]
    );
    assert_eq!(ops[3].operands[0], Object::Name(b"Helv".to_vec()));
    assert_eq!(ops[3].operands[1], Object::Integer(12));
    assert_eq!(ops[6].operands[0], Object::string_literal("hi"));
}

#[test]
fn regeneration_failure_never_reverts_a_text_write() {
    // A text field with no appearance stream: regeneration has nothing to
    // rewrite and gives up, but the value stays committed.
    let mut doc = Document::with_version("1.5");
    let mut f = Dictionary::new();
    f.set("FT", Object::Name(b"Tx".to_vec()));
    f.set(
        "Rect",
        Object::Array(vec![0.into(), 0.into(), 200.into(), 50.into()]),
    );
    let field_id = doc.add_object(Object::Dictionary(f));
    let mut acro = Dictionary::new();
    acro.set("Fields", Object::Array(vec![Object::Reference(field_id)]));
    let acro_id = doc.add_object(Object::Dictionary(acro));
    let mut catalog = Dictionary::new();
    catalog.set("Type", Object::Name(b"Catalog".to_vec()));
    catalog.set("AcroForm", Object::Reference(acro_id));
    let cat_id = doc.add_object(Object::Dictionary(catalog));
    doc.trailer.set("Root", Object::Reference(cat_id));
    let mut form = Form::load_doc(doc).expect("the form should load");
    assert!(form.set_text(0, "kept".to_string()).is_ok());
    match form.get_state(0) {
        FieldState::Text { text, .. } => assert_eq!(text, "kept"),
        other => panic!("expected a text state, got {:?}", other),
    }
    let bytes = form.save_bytes().expect("the document should serialize");
    let doc2 = Document::load_from(bytes.as_slice()).expect("the bytes should parse");
    let form2 = Form::load_doc(doc2).expect("the form should reload");
    match form2.get_state(0) {
        FieldState::Text { text, .. } => assert_eq!(text, "kept"),
        other => panic!("expected a text state, got {:?}", other),
    }
}

#[test]
fn parse_font_reads_the_standard_shape() {
    let r = parse_font(Some("/Helv 12 Tf 0 g"));
    assert_eq!(r.0, ("Helv".to_string(), 12));
    assert_eq!(r.1, ("g".to_string(), 0, 0, 0, 0));
}

#[test]
fn parse_font_recognizes_color_forms_by_component_count() {
    let rgb = parse_font(Some("/Arial 9 Tf 1 0 0 rg"));
    assert_eq!(rgb.0, ("Arial".to_string(), 9));
    assert_eq!(rgb.1, ("rg".to_string(), 1, 0, 0, 0));
    let cmyk = parse_font(Some("/Arial 9 Tf 0 1 0 1 k"));
    assert_eq!(cmyk.1, ("k".to_string(), 0, 1, 0, 1));
}

#[test]
fn parse_font_defaults_on_absent_or_malformed_input() {
    let none = parse_font(None);
    assert_eq!(none.0, ("Helv".to_string(), 12));
    assert_eq!(none.1, ("g".to_string(), 0, 0, 0, 0));
    let garbage = parse_font(Some("nonsense"));
    assert_eq!(garbage.0, ("Helv".to_string(), 12));
    assert_eq!(garbage.1, ("g".to_string(), 0, 0, 0, 0));
    let bad_size = parse_font(Some("/Helv ab Tf 0 g"));
    assert_eq!(bad_size.0, ("Helv".to_string(), 0));
}

#[test]
fn behavior_flags_read_the_two_low_bits() {
    let flagged = |v: i64| -> Dictionary {
        let mut d = Dictionary::new();
        d.set("Ff", Object::Integer(v));
        d
    };
    assert!(is_read_only(&flagged(1)));
    assert!(!is_read_only(&flagged(2)));
    assert!(is_required(&flagged(2)));
    assert!(!is_required(&flagged(1)));
    assert!(is_read_only(&flagged(3)) && is_required(&flagged(3)));
    assert!(!is_read_only(&Dictionary::new()) && !is_required(&Dictionary::new()));
}

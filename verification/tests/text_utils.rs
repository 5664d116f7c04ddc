use lopdf::{Dictionary, Object};
use pdf_forms::extract::{get_field_flags, get_on_value};
use pdf_forms::text::{
    lower_bytes, parse_i32_bytes, split_bytes, trim_bytes, trim_start_slashes, usize_to_dec_string,
};

#[test]
fn decimal_rendering_matches_to_string() {
    assert_eq!(usize_to_dec_string(0), "0");
    assert_eq!(usize_to_dec_string(7), "7");
    assert_eq!(usize_to_dec_string(10), "10");
    assert_eq!(usize_to_dec_string(1234), "1234");
}

#[test]
fn decimal_parsing_matches_str_parse() {
    assert_eq!(parse_i32_bytes(b"12"), Some(12));
    assert_eq!(parse_i32_bytes(b"+5"), Some(5));
    assert_eq!(parse_i32_bytes(b"-41"), Some(-41));
    assert_eq!(parse_i32_bytes(b"0"), Some(0));
    assert_eq!(parse_i32_bytes(b"-2147483648"), Some(i32::MIN));
    assert_eq!(parse_i32_bytes(b"2147483647"), Some(i32::MAX));
    assert_eq!(parse_i32_bytes(b"2147483648"), None);
    assert_eq!(parse_i32_bytes(b"-2147483649"), None);
    assert_eq!(parse_i32_bytes(b""), None);
    assert_eq!(parse_i32_bytes(b"+"), None);
    assert_eq!(parse_i32_bytes(b"1a"), None);
    assert_eq!(parse_i32_bytes(b" 3"), None);
}

#[test]
fn splitting_keeps_empty_tokens_like_str_split() {
    let split = |s: &str, sep: &str| -> Vec<Vec<u8>> { split_bytes(s.as_bytes(), sep.as_bytes()) };
    assert_eq!(split("a b", " "), vec![b"a".to_vec(), b"b".to_vec()]);
    assert_eq!(
        split("a  b", " "),
        vec![b"a".to_vec(), b"".to_vec(), b"b".to_vec()]
    );
    assert_eq!(split("", " "), vec![b"".to_vec()]);
    assert_eq!(
        split("xTfyTfz", "Tf"),
        vec![b"x".to_vec(), b"y".to_vec(), b"z".to_vec()]
    );
    assert_eq!(split("noseparator", "Tf"), vec![b"noseparator".to_vec()]);
}

#[test]
fn trimming_strips_whitespace_and_leading_slashes() {
    assert_eq!(trim_bytes(b"  a b\t"), b"a b".to_vec());
    assert_eq!(trim_bytes(b"\r\n"), b"".to_vec());
    assert_eq!(trim_start_slashes(b"//Helv"), b"Helv".to_vec());
    assert_eq!(trim_start_slashes(b"Helv/"), b"Helv/".to_vec());
}

#[test]
fn case_folding_lowers_ascii_letters_only() {
    assert_eq!(lower_bytes(b"BMC"), b"bmc".to_vec());
    assert_eq!(lower_bytes(b"Tj0/"), b"tj0/".to_vec());
}

#[test]
fn field_flags_read_the_integer_entry() {
    let mut d = Dictionary::new();
    assert_eq!(get_field_flags(&d), 0);
    d.set("Ff", Object::Integer(0x30001));
    assert_eq!(get_field_flags(&d), 0x30001);
}

#[test]
fn on_value_scans_the_normal_appearance_keys() {
    let mut d = Dictionary::new();
    assert_eq!(get_on_value(&d), "Yes");
    let mut n = Dictionary::new();
    n.set("Off", Object::Null);
    n.set("Checked", Object::Null);
    let mut ap = Dictionary::new();
    ap.set("N", Object::Dictionary(n));
    d.set("AP", Object::Dictionary(ap));
    assert_eq!(get_on_value(&d), "Checked");
}

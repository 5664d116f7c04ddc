//! Trusted access layer over the `lopdf` document object model.
//!
//! Everything the library reads from or writes to the loaded document goes
//! through the declarations and wrappers in this module. Each wrapper makes
//! one call chain into `lopdf` and converts between its values and plain
//! values; the logic that decides what to read or write is verified code in
//! the other modules, which takes these results as arguments.
//!
//! The document, its dictionaries, objects and content operations are
//! opaque here: nothing is claimed about what a lookup returns, only the
//! shape of the conversion. What the form later proves is stated over the
//! record snapshots that the verified extraction code builds from these
//! results.

use vstd::prelude::*;

verus! {

#[verifier::external_type_specification]
#[verifier::external_body]
pub struct ExDocument(lopdf::Document);

#[verifier::external_type_specification]
#[verifier::external_body]
pub struct ExDictionary(lopdf::Dictionary);

#[verifier::external_type_specification]
#[verifier::external_body]
pub struct ExObject(lopdf::Object);

#[verifier::external_type_specification]
#[verifier::external_body]
pub struct ExOperation(lopdf::content::Operation);

// ---------------------------------------------------------------------------
// Reading from the document
// ---------------------------------------------------------------------------

/// Relies on `Document::decompress`: decompresses every stream in place.
#[verifier::external_body]
pub(crate) fn doc_decompress(doc: &mut lopdf::Document) {
    doc.decompress();
}

/// Relies on the document's object table: looks the identity up directly,
/// without dereferencing.
#[verifier::external_body]
pub(crate) fn doc_raw_object<'a>(doc: &'a lopdf::Document, id: (u32, u16)) -> Option<
    &'a lopdf::Object,
> {
    doc.objects.get(&id)
}

/// Relies on `Dictionary::get` on the document's trailer dictionary.
#[verifier::external_body]
pub(crate) fn doc_trailer_get<'a>(doc: &'a lopdf::Document, key: &str) -> Option<
    &'a lopdf::Object,
> {
    doc.trailer.get(key.as_bytes()).ok()
}

/// Relies on `Dictionary::get`: the entry under the key, if there is one.
#[verifier::external_body]
pub(crate) fn dict_get<'a>(d: &'a lopdf::Dictionary, key: &str) -> Option<&'a lopdf::Object> {
    d.get(key.as_bytes()).ok()
}

/// Relies on `Dictionary::has`: whether an entry under the key exists.
#[verifier::external_body]
pub(crate) fn dict_has(d: &lopdf::Dictionary, key: &str) -> bool {
    d.has(key.as_bytes())
}

/// Relies on `Dictionary::iter`: the dictionary's keys, in its own order.
#[verifier::external_body]
pub(crate) fn dict_keys(d: &lopdf::Dictionary) -> Vec<Vec<u8>> {
    d.iter().map(|(k, _)| k.clone()).collect()
}

/// Relies on `Object::as_dict`.
#[verifier::external_body]
pub(crate) fn obj_as_dict<'a>(o: &'a lopdf::Object) -> Option<&'a lopdf::Dictionary> {
    o.as_dict().ok()
}

/// Relies on `Object::as_array`.
#[verifier::external_body]
pub(crate) fn obj_as_array<'a>(o: &'a lopdf::Object) -> Option<&'a Vec<lopdf::Object>> {
    o.as_array().ok()
}

/// Relies on `Object::as_reference`: the identity a reference points to.
#[verifier::external_body]
pub(crate) fn obj_reference_id(o: &lopdf::Object) -> Option<(u32, u16)> {
    o.as_reference().ok()
}

/// Relies on `Object::as_i64`: the value of an integer object.
#[verifier::external_body]
pub(crate) fn obj_as_i64(o: &lopdf::Object) -> Option<i64> {
    o.as_i64().ok()
}

/// Tells the name variant apart and hands its bytes out.
#[verifier::external_body]
pub(crate) fn obj_name_bytes(o: &lopdf::Object) -> Option<Vec<u8>> {
    match o {
        lopdf::Object::Name(b) => Some(b.clone()),
        _ => None,
    }
}

/// Tells the literal-string variant apart and hands its bytes out.
#[verifier::external_body]
pub(crate) fn obj_literal_str_bytes(o: &lopdf::Object) -> Option<Vec<u8>> {
    match o {
        lopdf::Object::String(b, lopdf::StringFormat::Literal) => Some(b.clone()),
        _ => None,
    }
}

/// Tells the string variant apart, in either format, and hands its bytes out.
#[verifier::external_body]
pub(crate) fn obj_str_bytes_any(o: &lopdf::Object) -> Option<Vec<u8>> {
    match o {
        lopdf::Object::String(b, _) => Some(b.clone()),
        _ => None,
    }
}

/// Tells the null variant apart.
#[verifier::external_body]
pub(crate) fn obj_is_null(o: &lopdf::Object) -> bool {
    o.is_null()
}

/// Tells the numeric variants apart: the value of an integer object, or a
/// real object's value truncated to an integer (the cast saturates).
#[verifier::external_body]
pub(crate) fn obj_coord(o: &lopdf::Object) -> Option<i64> {
    match o {
        lopdf::Object::Real(f) => Some(*f as i64),
        lopdf::Object::Integer(i) => Some(*i),
        _ => None,
    }
}

/// Relies on `Object::clone`.
#[verifier::external_body]
pub(crate) fn clone_object(o: &lopdf::Object) -> lopdf::Object {
    o.clone()
}

// ---------------------------------------------------------------------------
// Writing a field's entries
// ---------------------------------------------------------------------------

/// Relies on `Dictionary::set`: stores a name object with these bytes under
/// the key on the record the identity resolves to. Returns whether the
/// record was found.
#[verifier::external_body]
pub(crate) fn field_set_name(
    doc: &mut lopdf::Document,
    id: (u32, u16),
    key: &str,
    value: Vec<u8>,
) -> bool {
    match doc.objects.get_mut(&id).map(|o| o.as_dict_mut()) {
        Some(Ok(d)) => {
            d.set(key, lopdf::Object::Name(value));
            true
        },
        _ => false,
    }
}

/// Relies on `Dictionary::set`: stores a literal string object with these
/// bytes under the key on the record the identity resolves to.
#[verifier::external_body]
pub(crate) fn field_set_literal_string(
    doc: &mut lopdf::Document,
    id: (u32, u16),
    key: &str,
    value: Vec<u8>,
) -> bool {
    match doc.objects.get_mut(&id).map(|o| o.as_dict_mut()) {
        Some(Ok(d)) => {
            d.set(key, lopdf::Object::String(value, lopdf::StringFormat::Literal));
            true
        },
        _ => false,
    }
}

/// Relies on `Dictionary::set`: stores the null object under the key on the
/// record the identity resolves to.
#[verifier::external_body]
pub(crate) fn field_set_null(doc: &mut lopdf::Document, id: (u32, u16), key: &str) -> bool {
    match doc.objects.get_mut(&id).map(|o| o.as_dict_mut()) {
        Some(Ok(d)) => {
            d.set(key, lopdf::Object::Null);
            true
        },
        _ => false,
    }
}

/// Relies on `Dictionary::set`: stores an array of literal string objects,
/// one per entry, under the key on the record the identity resolves to.
#[verifier::external_body]
pub(crate) fn field_set_string_array(
    doc: &mut lopdf::Document,
    id: (u32, u16),
    key: &str,
    values: Vec<Vec<u8>>,
) -> bool {
    match doc.objects.get_mut(&id).map(|o| o.as_dict_mut()) {
        Some(Ok(d)) => {
            let arr: Vec<lopdf::Object> = values
                .into_iter()
                .map(|b| lopdf::Object::String(b, lopdf::StringFormat::Literal))
                .collect();
            d.set(key, lopdf::Object::Array(arr));
            true
        },
        _ => false,
    }
}

// ---------------------------------------------------------------------------
// The appearance stream's operations
// ---------------------------------------------------------------------------

/// Relies on `Document::get_object`, `Object::as_stream`,
/// `Stream::decompressed_content` and `Content::decode`: decodes the
/// instruction stream the identity resolves to, falling back to the raw
/// bytes where decompression fails, and pairs every operation with the
/// bytes of its operator.
#[verifier::external_body]
pub(crate) fn read_stream_ops(doc: &lopdf::Document, id: (u32, u16)) -> Option<
    Vec<(Vec<u8>, lopdf::content::Operation)>,
> {
    let stream = doc.get_object(id).ok()?.as_stream().ok()?;
    let data = match stream.decompressed_content() {
        Ok(d) => d,
        Err(_) => stream.content.clone(),
    };
    let content = lopdf::content::Content::decode(&data).ok()?;
    Some(content.operations.into_iter().map(|op| (op.operator.clone().into_bytes(), op)).collect())
}

/// Relies on `Content::encode`, `Stream::set_plain_content` and
/// `Stream::compress`: encodes the operations and replaces the content of
/// the stream the identity resolves to, recompressing it. Where encoding or
/// the lookup fails the stream is left untouched.
#[verifier::external_body]
pub(crate) fn write_stream_ops(
    doc: &mut lopdf::Document,
    id: (u32, u16),
    ops: Vec<lopdf::content::Operation>,
) -> bool {
    let stream = match doc.get_object_mut(id).map(|o| o.as_stream_mut()) {
        Ok(Ok(s)) => s,
        _ => return false,
    };
    let content = lopdf::content::Content { operations: ops };
    match content.encode() {
        Ok(encoded) => {
            stream.set_plain_content(encoded);
            let _ = stream.compress();
            true
        },
        Err(_) => false,
    }
}

/// Relies on `Object::Name`: builds a name object from these bytes.
#[verifier::external_body]
pub(crate) fn obj_name_new(bytes: Vec<u8>) -> lopdf::Object {
    lopdf::Object::Name(bytes)
}

/// Relies on `Object::Integer`: builds an integer object.
#[verifier::external_body]
pub(crate) fn obj_int_new(v: i64) -> lopdf::Object {
    lopdf::Object::Integer(v)
}

/// Relies on `Object::string_literal`: builds a literal string object.
#[verifier::external_body]
pub(crate) fn obj_string_lit_new(bytes: Vec<u8>) -> lopdf::Object {
    lopdf::Object::string_literal(bytes)
}

/// Relies on `Operation::new`: builds a content operation from an operator
/// and its operands.
#[verifier::external_body]
pub(crate) fn op_new(operator: &str, operands: Vec<lopdf::Object>) -> lopdf::content::Operation {
    lopdf::content::Operation::new(operator, operands)
}

// ---------------------------------------------------------------------------
// Serialization
// ---------------------------------------------------------------------------

/// Relies on `Document::save_to`: serializes the whole document into a
/// byte buffer.
#[verifier::external_body]
pub(crate) fn doc_save_bytes(doc: &mut lopdf::Document) -> Option<Vec<u8>> {
    let mut buf: Vec<u8> = Vec::new();
    match doc.save_to(&mut buf) {
        Ok(()) => Some(buf),
        Err(_) => None,
    }
}

} // verus!

//! Building a field's record snapshot from the loaded document.
//!
//! The functions here read one field record through the trusted access
//! layer and reduce everything the library later needs to plain values.
//! The scans over appearance-dictionary keys carry exact contracts; what a
//! lookup in the opaque document returns is, by nature, not specifiable
//! and is taken as the ground truth that the snapshot mirrors.

use vstd::prelude::*;
use vstd::string::{StrSliceExecFns, StringExecFns};
use vstd::utf8::{decode_utf8, valid_utf8};

use crate::model::{DaSnap, FieldRec, FtKind, ValSnap};
use crate::pdfdoc::{
    dict_get, dict_has, dict_keys, doc_raw_object, obj_as_array, obj_as_dict, obj_as_i64,
    obj_coord, obj_is_null, obj_literal_str_bytes, obj_name_bytes, obj_reference_id,
    obj_str_bytes_any,
};
use crate::text::utf8_string;

verus! {

/// The bytes of the name `Off`, the one appearance state every toggleable
/// field has.
pub open spec fn spec_off_bytes() -> Seq<u8> {
    seq![79u8, 102u8, 102u8]
}

fn off_bytes() -> (r: Vec<u8>)
    ensures
        r@ == spec_off_bytes(),
{
    let mut r: Vec<u8> = Vec::new();
    r.push(79);
    r.push(102);
    r.push(102);
    proof {
        assert(r@ =~= spec_off_bytes());
    }
    r
}

/// Compares two byte strings.
pub(crate) fn bytes_eq(a: &[u8], b: &[u8]) -> (r: bool)
    ensures
        r == (a@ == b@),
{
    if a.len() != b.len() {
        proof {
            assert(a@.len() != b@.len());
        }
        return false;
    }
    let mut i: usize = 0;
    while i < a.len()
        invariant
            i <= a@.len(),
            a@.len() == b@.len(),
            forall|j: int| 0 <= j < i ==> a@[j] == b@[j],
        decreases a@.len() - i,
    {
        if a[i] != b[i] {
            return false;
        }
        i += 1;
    }
    proof {
        assert(a@ =~= b@);
    }
    true
}

/// The on-state name that a kid's normal-appearance keys yield: the first
/// key other than `Off`, decoded, or the empty string where that key is
/// not text; nothing where every key is `Off`.
pub open spec fn spec_kid_on(keys: Seq<Seq<u8>>) -> Option<Seq<char>>
    decreases keys.len(),
{
    if keys.len() == 0 {
        None
    } else if keys[0] != spec_off_bytes() {
        Some(
            if valid_utf8(keys[0]) {
                decode_utf8(keys[0])
            } else {
                Seq::<char>::empty()
            },
        )
    } else {
        spec_kid_on(keys.skip(1))
    }
}

/// Scans a kid's normal-appearance keys for its on-state name.
pub(crate) fn kid_on_from_keys(keys: &Vec<Vec<u8>>) -> (r: Option<String>)
    ensures
        r.deep_view() == spec_kid_on(keys.deep_view()),
{
    let ghost dv = keys.deep_view();
    let off = off_bytes();
    let mut i: usize = 0;
    proof {
        assert(dv.skip(0) =~~= dv);
    }
    while i < keys.len()
        invariant
            i <= keys@.len(),
            dv == keys.deep_view(),
            off@ == spec_off_bytes(),
            spec_kid_on(dv) == spec_kid_on(dv.skip(i as int)),
        decreases keys@.len() - i,
    {
        proof {
            assert(dv.skip(i as int)[0] == dv[i as int]);
            assert(dv[i as int] =~= keys@[i as int]@);
        }
        if !bytes_eq(keys[i].as_slice(), off.as_slice()) {
            let ghost tailseq = dv.skip(i as int);
            proof {
                assert(tailseq[0] != spec_off_bytes());
            }
            let r = match utf8_string(keys[i].as_slice()) {
                Option::Some(s) => Option::Some(s),
                Option::None => {
                    let e = String::new();
                    proof {
                        assert(e@ =~= Seq::<char>::empty());
                    }
                    Option::Some(e)
                },
            };
            proof {
                assert(r.deep_view() == spec_kid_on(tailseq));
            }
            return r;
        }
        proof {
            assert(dv[i as int] == spec_off_bytes());
            assert(dv.skip(i as int).skip(1) =~~= dv.skip(i + 1));
            assert(spec_kid_on(dv.skip(i as int)) == spec_kid_on(dv.skip(i + 1)));
        }
        i += 1;
    }
    proof {
        assert(dv.skip(i as int).len() == 0);
    }
    None
}

/// The field's own on-state name from its normal-appearance keys: the
/// first key that is text and differs from `Off`; nothing where none is.
pub open spec fn spec_field_on(keys: Seq<Seq<u8>>) -> Option<Seq<char>>
    decreases keys.len(),
{
    if keys.len() == 0 {
        None
    } else if valid_utf8(keys[0]) && keys[0] != spec_off_bytes() {
        Some(decode_utf8(keys[0]))
    } else {
        spec_field_on(keys.skip(1))
    }
}

/// Scans the field's own normal-appearance keys for its on-state name.
pub(crate) fn field_on_from_keys(keys: &Vec<Vec<u8>>) -> (r: Option<String>)
    ensures
        r.deep_view() == spec_field_on(keys.deep_view()),
{
    let ghost dv = keys.deep_view();
    let off = off_bytes();
    let mut i: usize = 0;
    proof {
        assert(dv.skip(0) =~~= dv);
    }
    while i < keys.len()
        invariant
            i <= keys@.len(),
            dv == keys.deep_view(),
            off@ == spec_off_bytes(),
            spec_field_on(dv) == spec_field_on(dv.skip(i as int)),
        decreases keys@.len() - i,
    {
        proof {
            assert(dv.skip(i as int)[0] == dv[i as int]);
            assert(dv[i as int] =~= keys@[i as int]@);
        }
        let ghost tailseq = dv.skip(i as int);
        if !bytes_eq(keys[i].as_slice(), off.as_slice()) {
            match utf8_string(keys[i].as_slice()) {
                Option::Some(s) => {
                    let r = Option::Some(s);
                    proof {
                        assert(tailseq[0] != spec_off_bytes());
                        assert(r.deep_view() == spec_field_on(tailseq));
                    }
                    return r;
                },
                Option::None => {
                    proof {
                        assert(!valid_utf8(tailseq[0]));
                        assert(dv.skip(i as int).skip(1) =~~= dv.skip(i + 1));
                        assert(spec_field_on(dv.skip(i as int)) == spec_field_on(dv.skip(i + 1)));
                    }
                },
            }
        } else {
            proof {
                assert(dv[i as int] == spec_off_bytes());
                assert(dv.skip(i as int).skip(1) =~~= dv.skip(i + 1));
                assert(spec_field_on(dv.skip(i as int)) == spec_field_on(dv.skip(i + 1)));
            }
        }
        i += 1;
    }
    proof {
        assert(dv.skip(i as int).len() == 0);
    }
    None
}

// ---------------------------------------------------------------------------
// Snapshot builders over opaque records
// ---------------------------------------------------------------------------

/// The type code of the record: `FT` read as a name and matched against
/// the three known codes.
fn ft_kind(dict: &lopdf::Dictionary) -> FtKind {
    let mut btn: Vec<u8> = Vec::new();
    btn.push(66);
    btn.push(116);
    btn.push(110);
    let mut ch: Vec<u8> = Vec::new();
    ch.push(67);
    ch.push(104);
    let mut tx: Vec<u8> = Vec::new();
    tx.push(84);
    tx.push(120);
    match dict_get(dict, "FT") {
        Option::Some(o) => match obj_name_bytes(o) {
            Option::Some(b) => {
                if bytes_eq(b.as_slice(), btn.as_slice()) {
                    FtKind::Btn
                } else if bytes_eq(b.as_slice(), ch.as_slice()) {
                    FtKind::Ch
                } else if bytes_eq(b.as_slice(), tx.as_slice()) {
                    FtKind::Tx
                } else {
                    FtKind::Other
                }
            },
            Option::None => FtKind::Other,
        },
        Option::None => FtKind::Other,
    }
}

/// The flag bitset of the record: `Ff` read as an integer, truncated to
/// the 32 flag bits; absent or of another shape counts as zero.
pub fn get_field_flags(dict: &lopdf::Dictionary) -> u32 {
    match dict_get(dict, "Ff") {
        Option::Some(o) => match obj_as_i64(o) {
            Option::Some(v) => #[verifier::truncate] (v as u32),
            Option::None => 0,
        },
        Option::None => 0,
    }
}

/// The partial field name: `T` read as a string, where its bytes are text.
fn name_snap(dict: &lopdf::Dictionary) -> Option<String> {
    match dict_get(dict, "T") {
        Option::Some(o) => match obj_str_bytes_any(o) {
            Option::Some(b) => utf8_string(b.as_slice()),
            Option::None => Option::None,
        },
        Option::None => Option::None,
    }
}

/// The current value of the record, reduced to a plain snapshot. An array
/// value keeps its literal string elements that are text and skips the
/// rest.
fn value_snap(o: &lopdf::Object) -> ValSnap {
    if obj_is_null(o) {
        return ValSnap::Null;
    }
    match obj_name_bytes(o) {
        Option::Some(b) => {
            return match utf8_string(b.as_slice()) {
                Option::Some(s) => ValSnap::Name(s),
                Option::None => ValSnap::Other,
            };
        },
        Option::None => {},
    }
    match obj_literal_str_bytes(o) {
        Option::Some(b) => {
            return match utf8_string(b.as_slice()) {
                Option::Some(s) => ValSnap::Str(s),
                Option::None => ValSnap::Other,
            };
        },
        Option::None => {},
    }
    match obj_as_array(o) {
        Option::Some(arr) => {
            let mut v: Vec<String> = Vec::new();
            let mut i: usize = 0;
            while i < arr.len()
                decreases arr@.len() - i,
            {
                match obj_literal_str_bytes(&arr[i]) {
                    Option::Some(b) => match utf8_string(b.as_slice()) {
                        Option::Some(s) => {
                            v.push(s);
                        },
                        Option::None => {},
                    },
                    Option::None => {},
                }
                i += 1;
            }
            ValSnap::StrArr(v)
        },
        Option::None => ValSnap::Other,
    }
}

/// The current appearance-state name: `AS` read as a name whose bytes are
/// text.
fn app_state_snap(dict: &lopdf::Dictionary) -> Option<String> {
    match dict_get(dict, "AS") {
        Option::Some(o) => match obj_name_bytes(o) {
            Option::Some(b) => utf8_string(b.as_slice()),
            Option::None => Option::None,
        },
        Option::None => Option::None,
    }
}

/// The keys of the normal-appearance sub-dictionary under `AP`, where both
/// levels are present and dictionaries.
fn normal_appearance_keys(dict: &lopdf::Dictionary) -> Option<Vec<Vec<u8>>> {
    let ap = match dict_get(dict, "AP") {
        Option::Some(o) => o,
        Option::None => {
            return Option::None;
        },
    };
    let ap_dict = match obj_as_dict(ap) {
        Option::Some(d) => d,
        Option::None => {
            return Option::None;
        },
    };
    let n = match dict_get(ap_dict, "N") {
        Option::Some(o) => o,
        Option::None => {
            return Option::None;
        },
    };
    match obj_as_dict(n) {
        Option::Some(nd) => Option::Some(dict_keys(nd)),
        Option::None => Option::None,
    }
}

/// One on-state name per kid: the kid is resolved, its normal-appearance
/// keys are scanned with [`kid_on_from_keys`]; a kid that cannot be
/// resolved, or has no normal-appearance dictionary, yields nothing, which
/// the state reader later replaces with the kid's position.
fn kid_on_snap(doc: &lopdf::Document, dict: &lopdf::Dictionary) -> Vec<Option<String>> {
    let mut r: Vec<Option<String>> = Vec::new();
    let kids = match dict_get(dict, "Kids") {
        Option::Some(o) => match obj_as_array(o) {
            Option::Some(a) => a,
            Option::None => {
                return r;
            },
        },
        Option::None => {
            return r;
        },
    };
    let mut i: usize = 0;
    while i < kids.len()
        decreases kids@.len() - i,
    {
        let mut entry: Option<String> = Option::None;
        match obj_reference_id(&kids[i]) {
            Option::Some(kid_id) => match doc_raw_object(doc, kid_id) {
                Option::Some(kid_obj) => match obj_as_dict(kid_obj) {
                    Option::Some(kid_dict) => match normal_appearance_keys(kid_dict) {
                        Option::Some(keys) => {
                            entry = kid_on_from_keys(&keys);
                        },
                        Option::None => {},
                    },
                    Option::None => {},
                },
                Option::None => {},
            },
            Option::None => {},
        }
        r.push(entry);
        i += 1;
    }
    r
}

/// The raw option list: each `Opt` entry that is a literal string with text
/// bytes yields that string; an entry that is an array with a second
/// element of that shape yields the second element; anything else yields
/// nothing.
fn opts_snap(dict: &lopdf::Dictionary) -> Vec<Option<String>> {
    let mut r: Vec<Option<String>> = Vec::new();
    let arr = match dict_get(dict, "Opt") {
        Option::Some(o) => match obj_as_array(o) {
            Option::Some(a) => a,
            Option::None => {
                return r;
            },
        },
        Option::None => {
            return r;
        },
    };
    let mut i: usize = 0;
    while i < arr.len()
        decreases arr@.len() - i,
    {
        let mut entry: Option<String> = Option::None;
        match obj_literal_str_bytes(&arr[i]) {
            Option::Some(b) => {
                entry = utf8_string(b.as_slice());
            },
            Option::None => match obj_as_array(&arr[i]) {
                Option::Some(inner) => {
                    if inner.len() >= 2 {
                        match obj_literal_str_bytes(&inner[1]) {
                            Option::Some(b) => {
                                entry = utf8_string(b.as_slice());
                            },
                            Option::None => {},
                        }
                    }
                },
                Option::None => {},
            },
        }
        r.push(entry);
        i += 1;
    }
    r
}

/// The default-appearance entry, kept as raw bytes where it is a string.
fn da_snap(dict: &lopdf::Dictionary) -> DaSnap {
    match dict_get(dict, "DA") {
        Option::Some(o) => match obj_str_bytes_any(o) {
            Option::Some(b) => DaSnap::Bytes(b),
            Option::None => DaSnap::NotText,
        },
        Option::None => DaSnap::Missing,
    }
}

/// A coordinate of the bounding rectangle: a non-numeric entry counts as
/// zero.
fn coord_or_zero(o: &lopdf::Object) -> i64 {
    match obj_coord(o) {
        Option::Some(v) => v,
        Option::None => 0,
    }
}

/// The bounding rectangle: the first four coordinates of a `Rect` array,
/// each truncated to an integer, a non-numeric one counting as zero;
/// nothing where the entry is absent, not an array, or shorter than four
/// elements.
fn rect_snap(dict: &lopdf::Dictionary) -> Option<(i64, i64, i64, i64)> {
    match dict_get(dict, "Rect") {
        Option::Some(o) => match obj_as_array(o) {
            Option::Some(a) => {
                if a.len() >= 4 {
                    Option::Some(
                        (
                            coord_or_zero(&a[0]),
                            coord_or_zero(&a[1]),
                            coord_or_zero(&a[2]),
                            coord_or_zero(&a[3]),
                        ),
                    )
                } else {
                    Option::None
                }
            },
            Option::None => Option::None,
        },
        Option::None => Option::None,
    }
}

/// The reference to the normal-appearance stream under `AP`.
fn ap_n_snap(dict: &lopdf::Dictionary) -> Option<(u32, u16)> {
    match dict_get(dict, "AP") {
        Option::Some(o) => match obj_as_dict(o) {
            Option::Some(d) => match dict_get(d, "N") {
                Option::Some(n) => obj_reference_id(n),
                Option::None => Option::None,
            },
            Option::None => Option::None,
        },
        Option::None => Option::None,
    }
}

/// Whether the record's behavior flags mark it read-only.
pub fn is_read_only(dict: &lopdf::Dictionary) -> bool {
    get_field_flags(dict) & crate::flags::FLAG_READONLY != 0
}

/// Whether the record's behavior flags mark it required.
pub fn is_required(dict: &lopdf::Dictionary) -> bool {
    get_field_flags(dict) & crate::flags::FLAG_REQUIRED != 0
}

/// The record's configured on-state name: the first key of its
/// normal-appearance dictionary that is text and differs from `Off`, or
/// `Yes` where the record has no such key.
pub fn get_on_value(dict: &lopdf::Dictionary) -> String {
    let field_on = match normal_appearance_keys(dict) {
        Option::Some(keys) => field_on_from_keys(&keys),
        Option::None => Option::None,
    };
    match field_on {
        Option::Some(s) => s,
        Option::None => String::from_str("Yes"),
    }
}

/// Whether the record carries a type code, which makes it a terminal field.
pub(crate) fn has_field_type(dict: &lopdf::Dictionary) -> bool {
    dict_has(dict, "FT")
}

/// Reads everything the form keeps about the field the identity names.
pub(crate) fn snap_field(
    doc: &lopdf::Document,
    id: (u32, u16),
    dict: &lopdf::Dictionary,
) -> (r: FieldRec)
    ensures
        r.id == id,
{
    let value = match dict_get(dict, "V") {
        Option::Some(o) => value_snap(o),
        Option::None => ValSnap::Absent,
    };
    let field_on = match normal_appearance_keys(dict) {
        Option::Some(keys) => field_on_from_keys(&keys),
        Option::None => Option::None,
    };
    FieldRec {
        id,
        ft: ft_kind(dict),
        flags: get_field_flags(dict),
        name: name_snap(dict),
        value,
        app_state: app_state_snap(dict),
        kid_on: kid_on_snap(doc, dict),
        field_on,
        opts: opts_snap(dict),
        da: da_snap(dict),
        rect: rect_snap(dict),
        ap_n: ap_n_snap(dict),
    }
}

} // verus!

//! Regeneration of a text field's cached appearance stream.
//!
//! After a text value changes, the field's normal-appearance instruction
//! stream is rewritten so that viewers that do not re-render form fields
//! still display the new value: every instruction belonging to a fixed
//! ignore-list of text-rendering and marked-content operators is removed,
//! and a fresh single-line text block is appended, with font, size and
//! fill color taken from the field's default-appearance string or from the
//! defaults where that string is absent or malformed.
//!
//! The rewrite is best-effort: a failure leaves the stream untouched and
//! never affects the committed value.

use vstd::prelude::*;
use vstd::string::StrSliceExecFns;

use crate::fontspec::parse_da;
use crate::model::{DaSnap, DaSnapV, FieldRec, ValSnap};
use crate::pdfdoc::{
    obj_int_new, obj_name_new, obj_string_lit_new, op_new, read_stream_ops, write_stream_ops,
};
use crate::text::{lower_bytes, spec_lower, utf8_string};

verus! {

/// The operators whose instructions are dropped before the new text block
/// is appended: text state, text showing, text object and marked-content
/// scoping, and the save/restore pair the block re-emits, compared after
/// ASCII case-folding (every operator the format defines is ASCII).
pub open spec fn spec_is_ignored_op(op: Seq<u8>) -> bool {
    let l = spec_lower(op);
    ||| l == seq![98u8, 116u8]  // bt
    ||| l == seq![116u8, 99u8]  // tc
    ||| l == seq![116u8, 119u8]  // tw
    ||| l == seq![116u8, 122u8]  // tz
    ||| l == seq![103u8]  // g
    ||| l == seq![116u8, 114u8]  // tr
    ||| l == seq![116u8, 102u8]  // tf
    ||| l == seq![116u8, 106u8]  // tj
    ||| l == seq![101u8, 116u8]  // et
    ||| l == seq![113u8]  // q
    ||| l == seq![98u8, 109u8, 99u8]  // bmc
    ||| l == seq![101u8, 109u8, 99u8]  // emc
}

fn mk1(a: u8) -> (r: Vec<u8>)
    ensures
        r@ == seq![a],
{
    let mut r: Vec<u8> = Vec::new();
    r.push(a);
    proof {
        assert(r@ =~= seq![a]);
    }
    r
}

fn mk2(a: u8, b: u8) -> (r: Vec<u8>)
    ensures
        r@ == seq![a, b],
{
    let mut r: Vec<u8> = Vec::new();
    r.push(a);
    r.push(b);
    proof {
        assert(r@ =~= seq![a, b]);
    }
    r
}

fn mk3(a: u8, b: u8, c: u8) -> (r: Vec<u8>)
    ensures
        r@ == seq![a, b, c],
{
    let mut r: Vec<u8> = Vec::new();
    r.push(a);
    r.push(b);
    r.push(c);
    proof {
        assert(r@ =~= seq![a, b, c]);
    }
    r
}

/// Whether the operator belongs to the ignore-list.
pub(crate) fn is_ignored_op(op: &Vec<u8>) -> (r: bool)
    ensures
        r == spec_is_ignored_op(op@),
{
    let l = lower_bytes(op.as_slice());
    let ls = l.as_slice();
    let r = crate::extract::bytes_eq(ls, mk2(98, 116).as_slice()) || crate::extract::bytes_eq(
        ls,
        mk2(116, 99).as_slice(),
    ) || crate::extract::bytes_eq(ls, mk2(116, 119).as_slice()) || crate::extract::bytes_eq(
        ls,
        mk2(116, 122).as_slice(),
    ) || crate::extract::bytes_eq(ls, mk1(103).as_slice()) || crate::extract::bytes_eq(
        ls,
        mk2(116, 114).as_slice(),
    ) || crate::extract::bytes_eq(ls, mk2(116, 102).as_slice()) || crate::extract::bytes_eq(
        ls,
        mk2(116, 106).as_slice(),
    ) || crate::extract::bytes_eq(ls, mk2(101, 116).as_slice()) || crate::extract::bytes_eq(
        ls,
        mk1(113).as_slice(),
    ) || crate::extract::bytes_eq(ls, mk3(98, 109, 99).as_slice()) || crate::extract::bytes_eq(
        ls,
        mk3(101, 109, 99).as_slice(),
    );
    r
}

/// The operations kept by the rewrite: those whose operator is not on the
/// ignore-list, in their original order.
pub open spec fn spec_kept_ops(ps: Seq<(Vec<u8>, lopdf::content::Operation)>) -> Seq<
    lopdf::content::Operation,
>
    decreases ps.len(),
{
    if ps.len() == 0 {
        Seq::<lopdf::content::Operation>::empty()
    } else {
        let rest = spec_kept_ops(ps.drop_last());
        if spec_is_ignored_op(ps.last().0@) {
            rest
        } else {
            rest.push(ps.last().1)
        }
    }
}

/// Drops every operation whose operator is on the ignore-list.
pub(crate) fn filter_ops(pairs: Vec<(Vec<u8>, lopdf::content::Operation)>) -> (r: Vec<
    lopdf::content::Operation,
>)
    ensures
        r@ == spec_kept_ops(pairs@),
{
    let ghost full = pairs@;
    let mut pairs = pairs;
    let n0 = pairs.len();
    proof {
        assert(full.len() == n0);
    }
    let mut r: Vec<lopdf::content::Operation> = Vec::new();
    let mut i: usize = 0;
    proof {
        assert(full.take(0) =~= Seq::<(Vec<u8>, lopdf::content::Operation)>::empty());
    }
    while pairs.len() > 0
        invariant
            i <= full.len(),
            full.len() <= usize::MAX,
            pairs@ =~= full.skip(i as int),
            r@ =~= spec_kept_ops(full.take(i as int)),
        decreases pairs@.len(),
    {
        let (opbytes, op) = pairs.remove(0);
        let keep = !is_ignored_op(&opbytes);
        if keep {
            r.push(op);
        }
        i += 1;
        proof {
            assert(pairs@ =~= full.skip(i as int));
            let t = full.take(i as int);
            assert(t.drop_last() =~= full.take(i - 1));
            assert(t.last() == full[i - 1]);
            assert(t.last().0@ == opbytes@ && t.last().1 == op);
            assert(r@ =~= spec_kept_ops(t));
        }
    }
    proof {
        assert(full.take(i as int) =~= full);
    }
    r
}

/// Clamps a coordinate into the 32-bit range before the offset arithmetic.
fn clamp_coord(v: i64) -> (r: i64)
    ensures
        -0x8000_0000i64 <= r <= 0x7fff_ffffi64,
        -0x8000_0000i64 <= v <= 0x7fff_ffffi64 ==> r == v,
{
    if v > 0x7fff_ffffi64 {
        0x7fff_ffffi64
    } else if v < -0x8000_0000i64 {
        -0x8000_0000i64
    } else {
        v
    }
}

/// Appends the fresh text block to the retained operations: begin marked
/// content tagged `Tx`, save the graphics state, begin a text object, set
/// the font and size, set the fill color with the given operator, set the
/// text matrix `1 0 0 1 3 y`, show the text, end the text object, restore
/// the state, end marked content — ten operations, with the retained
/// prefix untouched.
fn append_text_block(
    ops: &mut Vec<lopdf::content::Operation>,
    font_name: Vec<u8>,
    font_size: i32,
    color_val: i32,
    color_op: &str,
    y: i64,
    text: Vec<u8>,
)
    ensures
        final(ops)@.len() == old(ops)@.len() + 10,
        final(ops)@.subrange(0, old(ops)@.len() as int) == old(ops)@,
{
    let mut bmc_args: Vec<lopdf::Object> = Vec::new();
    bmc_args.push(obj_name_new(mk2(84, 120)));  // the marked-content tag Tx
    ops.push(op_new("BMC", bmc_args));
    ops.push(op_new("q", Vec::new()));
    ops.push(op_new("BT", Vec::new()));

    let mut tf_args: Vec<lopdf::Object> = Vec::new();
    tf_args.push(obj_name_new(font_name));
    tf_args.push(obj_int_new(font_size as i64));
    ops.push(op_new("Tf", tf_args));

    let mut color_args: Vec<lopdf::Object> = Vec::new();
    color_args.push(obj_int_new(color_val as i64));
    ops.push(op_new(color_op, color_args));

    let mut tm_args: Vec<lopdf::Object> = Vec::new();
    tm_args.push(obj_int_new(1));
    tm_args.push(obj_int_new(0));
    tm_args.push(obj_int_new(0));
    tm_args.push(obj_int_new(1));
    tm_args.push(obj_int_new(3));
    tm_args.push(obj_int_new(y));
    ops.push(op_new("Tm", tm_args));

    let mut tj_args: Vec<lopdf::Object> = Vec::new();
    tj_args.push(obj_string_lit_new(text));
    ops.push(op_new("Tj", tj_args));
    ops.push(op_new("ET", Vec::new()));
    ops.push(op_new("Q", Vec::new()));
    ops.push(op_new("EMC", Vec::new()));
    proof {
        assert(final(ops)@.subrange(0, old(ops)@.len() as int) =~= old(ops)@);
    }
}

/// Rewrites the normal-appearance stream of a text field's record to show
/// its current value.
///
/// The record must hold a string value, a bounding rectangle and a
/// normal-appearance stream reference, else nothing is done. The stream's
/// instructions are then decoded, the ignore-list instructions are dropped
/// ([`spec_kept_ops`]), and the ten-operation text block of
/// [`append_text_block`] follows them, with font, size and fill color
/// from the default-appearance string — or the defaults where that string
/// is absent or malformed ([`crate::fontspec::spec_parse_da_rel`]) — and
/// the text placed at a fixed three-unit left margin, vertically half the
/// rectangle's height less two fifths of the font size, in whole units.
/// Returns whether the stream was replaced; decoding or re-encoding may
/// fail, so success is not promised even for a well-shaped record, but
/// the stream is then left untouched.
pub(crate) fn regenerate_text_appearance(doc: &mut lopdf::Document, rec: &FieldRec) -> (ret: bool)
    ensures
        ret ==> rec.deep_view().value is Str,
        ret ==> rec.deep_view().rect is Some,
        ret ==> rec.deep_view().ap_n is Some,
        ret ==> match rec.deep_view().da {
            DaSnapV::Bytes(b) => vstd::utf8::valid_utf8(b),
            _ => true,
        },
{
    let text_bytes: Vec<u8> = match &rec.value {
        ValSnap::Str(s) => s.as_str().as_bytes_vec(),
        _ => {
            return false;
        },
    };
    let da_parts: (Vec<u8>, i32, i32, Vec<u8>) = match &rec.da {
        DaSnap::Missing | DaSnap::NotText => {
            let empty: Vec<u8> = Vec::new();
            parse_da(empty.as_slice())
        },
        DaSnap::Bytes(b) => {
            match utf8_string(b.as_slice()) {
                Option::Some(_) => {},
                Option::None => {
                    return false;
                },
            }
            parse_da(b.as_slice())
        },
    };
    let (font_name, font_size, color_val, color_op) = da_parts;
    let (y0, y1) = match rec.rect {
        Option::Some((_x0, b, _x1, t)) => (clamp_coord(b), clamp_coord(t)),
        Option::None => {
            return false;
        },
    };
    let sid = match rec.ap_n {
        Option::Some(id) => id,
        Option::None => {
            return false;
        },
    };
    let pairs = match read_stream_ops(doc, sid) {
        Option::Some(p) => p,
        Option::None => {
            return false;
        },
    };
    let mut ops = filter_ops(pairs);

    let cop_str = match utf8_string(color_op.as_slice()) {
        Option::Some(s) => s,
        Option::None => {
            return false;
        },
    };
    let y: i64 = (y1 - y0) / 2 - (2 * (font_size as i64)) / 5;
    append_text_block(&mut ops, font_name, font_size, color_val, cop_str.as_str(), y, text_bytes);
    write_stream_ops(doc, sid, ops)
}

} // verus!

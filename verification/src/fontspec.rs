//! Parsing of default-appearance operator strings.
//!
//! A default-appearance string names a font, a size and a fill color, as in
//! `/Helv 12 Tf 0 g`. Two parsers live here: [`parse_font`], which splits
//! on the `Tf` operator and understands the one-, three- and four-component
//! color forms, and [`parse_da`], the five-token reading used when a text
//! field's appearance stream is regenerated. Both fall back to the default
//! font `Helv` at size 12 with the gray fill operator `g` at value 0 when
//! the string does not have the expected shape.

use vstd::prelude::*;
use vstd::string::{StringExecFns, StringSliceAdditionalSpecFns};
use vstd::utf8::{decode_utf8, encode_utf8, valid_utf8};

use crate::text::{
    parse_i32_bytes, spec_parse_i32, spec_split, spec_trim, spec_trim_start_slashes, split_bytes,
    trim_bytes, trim_start_slashes, utf8_string, B_SPACE,
};

verus! {

/// ASCII codes of the `Tf` separator.
pub const B_UC_T: u8 = 84;

pub const B_LC_F: u8 = 102;

/// The `Tf` separator as a byte sequence.
pub open spec fn spec_tf_sep() -> Seq<u8> {
    seq![B_UC_T, B_LC_F]
}

/// The byte sequence of the default font name `Helv`.
pub open spec fn spec_helv_bytes() -> Seq<u8> {
    seq![72u8, 101u8, 108u8, 118u8]
}

/// The byte sequence of the default fill color operator `g`.
pub open spec fn spec_g_bytes() -> Seq<u8> {
    seq![103u8]
}

/// An unparsable number counts as zero.
pub open spec fn spec_or_zero(r: Option<i32>) -> i32 {
    match r {
        Option::Some(v) => v,
        Option::None => 0,
    }
}

fn tf_sep() -> (r: Vec<u8>)
    ensures
        r@ == spec_tf_sep(),
{
    let mut r: Vec<u8> = Vec::new();
    r.push(B_UC_T);
    r.push(B_LC_F);
    proof {
        assert(r@ =~= spec_tf_sep());
    }
    r
}

fn helv_bytes() -> (r: Vec<u8>)
    ensures
        r@ == spec_helv_bytes(),
{
    let mut r: Vec<u8> = Vec::new();
    r.push(72);
    r.push(101);
    r.push(108);
    r.push(118);
    proof {
        assert(r@ =~= spec_helv_bytes());
    }
    r
}

fn g_bytes() -> (r: Vec<u8>)
    ensures
        r@ == spec_g_bytes(),
{
    let mut r: Vec<u8> = Vec::new();
    r.push(103);
    proof {
        assert(r@ =~= spec_g_bytes());
    }
    r
}

fn space_sep() -> (r: Vec<u8>)
    ensures
        r@ == seq![B_SPACE],
{
    let mut r: Vec<u8> = Vec::new();
    r.push(B_SPACE);
    proof {
        assert(r@ =~= seq![B_SPACE]);
    }
    r
}

// ---------------------------------------------------------------------------
// parse_font
// ---------------------------------------------------------------------------

/// The default result: font `Helv` at size 12, gray fill `g` at 0.
pub open spec fn spec_font_defaults(out: (Seq<char>, i32, Seq<char>, i32, i32, i32, i32)) -> bool {
    out == ("Helv"@, 12i32, "g"@, 0i32, 0i32, 0i32, 0i32)
}

/// The returned font name carries exactly the token's bytes; a token that
/// is not text falls back to the default name.
pub open spec fn spec_font_name_ok(tok: Seq<u8>, name: Seq<char>) -> bool {
    if valid_utf8(tok) {
        encode_utf8(name) == tok
    } else {
        name == "Helv"@
    }
}

/// What [`parse_font`] yields, stated over the UTF-8 bytes of the input:
/// the input is split on `Tf` after leading slashes are removed; the part
/// before names the font family and size, the part after carries the color
/// components and operator, recognized by their count.
pub open spec fn spec_parse_font_rel(
    input: Option<Seq<u8>>,
    out: (Seq<char>, i32, Seq<char>, i32, i32, i32, i32),
) -> bool {
    match input {
        Option::None => spec_font_defaults(out),
        Option::Some(b) => {
            let parts = spec_split(spec_trim_start_slashes(b), spec_tf_sep());
            if parts.len() < 2 {
                spec_font_defaults(out)
            } else {
                let family = spec_split(spec_trim(parts[0]), seq![B_SPACE]);
                let colors = spec_split(spec_trim(parts[1]), seq![B_SPACE]);
                let font_ok = if family.len() >= 2 {
                    spec_font_name_ok(family[0], out.0) && out.1 == spec_or_zero(
                        spec_parse_i32(family[1]),
                    )
                } else {
                    out.0 == "Helv"@ && out.1 == 12i32
                };
                let color_ok = if colors.len() == 2 {
                    out.2 == "g"@ && out.3 == spec_or_zero(spec_parse_i32(colors[0])) && out.4
                        == 0i32 && out.5 == 0i32 && out.6 == 0i32
                } else if colors.len() == 4 {
                    out.2 == "rg"@ && out.3 == spec_or_zero(spec_parse_i32(colors[0])) && out.4
                        == spec_or_zero(spec_parse_i32(colors[1])) && out.5 == spec_or_zero(
                        spec_parse_i32(colors[2]),
                    ) && out.6 == 0i32
                } else if colors.len() == 5 {
                    out.2 == "k"@ && out.3 == spec_or_zero(spec_parse_i32(colors[0])) && out.4
                        == spec_or_zero(spec_parse_i32(colors[1])) && out.5 == spec_or_zero(
                        spec_parse_i32(colors[2]),
                    ) && out.6 == spec_or_zero(spec_parse_i32(colors[3]))
                } else {
                    out.2 == "g"@ && out.3 == 0i32 && out.4 == 0i32 && out.5 == 0i32 && out.6
                        == 0i32
                };
                font_ok && color_ok
            }
        },
    }
}

fn parse_or_zero(tok: &Vec<u8>) -> (r: i32)
    ensures
        r == spec_or_zero(spec_parse_i32(tok@)),
{
    match parse_i32_bytes(tok.as_slice()) {
        Option::Some(v) => v,
        Option::None => 0,
    }
}

/// Turns a token's bytes back into text, defaulting to the default font
/// name where the bytes are not text.
fn token_name(tok: &Vec<u8>) -> (r: String)
    ensures
        spec_font_name_ok(tok@, r@),
{
    match utf8_string(tok.as_slice()) {
        Option::Some(s) => {
            proof {
                vstd::utf8::decode_utf8_encode_utf8(tok@);
            }
            s
        },
        Option::None => String::from_str("Helv"),
    }
}

/// Reads a default-appearance string into a font part (family name and
/// size) and a color part (fill operator name and up to four components).
///
/// An absent string, or one that does not split into a part before and
/// after a `Tf` operator, yields the defaults; so does a font part without
/// two tokens, or a color part whose token count matches no known operator.
pub fn parse_font(font_string: Option<&str>) -> (r: (
    (String, i32),
    (String, i32, i32, i32, i32),
))
    ensures
        spec_parse_font_rel(
            match font_string {
                Option::Some(s) => Option::Some(s.spec_bytes()),
                Option::None => Option::None,
            },
            (r.0.0@, r.0.1, r.1.0@, r.1.1, r.1.2, r.1.3, r.1.4),
        ),
{
    match font_string {
        Option::None => ((String::from_str("Helv"), 12), (String::from_str("g"), 0, 0, 0, 0)),
        Option::Some(s) => {
            let b = s.as_bytes();
            let trimmed = trim_start_slashes(b);
            let sep = tf_sep();
            let parts = split_bytes(trimmed.as_slice(), sep.as_slice());
            if parts.len() < 2 {
                return (
                    (String::from_str("Helv"), 12),
                    (String::from_str("g"), 0, 0, 0, 0),
                );
            }
            let space = space_sep();
            let ghost sparts = spec_split(spec_trim_start_slashes(s.spec_bytes()), spec_tf_sep());
            proof {
                assert(parts.deep_view() =~~= sparts);
                assert(parts@[0]@ == sparts[0]);
                assert(parts@[1]@ == sparts[1]);
            }
            let family_part = trim_bytes(parts[0].as_slice());
            let family = split_bytes(family_part.as_slice(), space.as_slice());
            let color_part = trim_bytes(parts[1].as_slice());
            let colors = split_bytes(color_part.as_slice(), space.as_slice());
            let ghost sfam = spec_split(spec_trim(sparts[0]), seq![B_SPACE]);
            let ghost scol = spec_split(spec_trim(sparts[1]), seq![B_SPACE]);
            proof {
                assert(family.deep_view() =~~= sfam);
                assert(colors.deep_view() =~~= scol);
                assert(family@.len() == sfam.len());
                assert(colors@.len() == scol.len());
                if sfam.len() >= 2 {
                    assert(family@[0]@ == sfam[0]);
                    assert(family@[1]@ == sfam[1]);
                }
                if scol.len() == 2 || scol.len() == 4 || scol.len() == 5 {
                    assert(colors@[0]@ == scol[0]);
                }
                if scol.len() == 4 || scol.len() == 5 {
                    assert(colors@[1]@ == scol[1]);
                    assert(colors@[2]@ == scol[2]);
                }
                if scol.len() == 5 {
                    assert(colors@[3]@ == scol[3]);
                }
            }
            let font = if family.len() >= 2 {
                (token_name(&family[0]), parse_or_zero(&family[1]))
            } else {
                (String::from_str("Helv"), 12)
            };
            let color = if colors.len() == 2 {
                (String::from_str("g"), parse_or_zero(&colors[0]), 0, 0, 0)
            } else if colors.len() == 4 {
                (
                    String::from_str("rg"),
                    parse_or_zero(&colors[0]),
                    parse_or_zero(&colors[1]),
                    parse_or_zero(&colors[2]),
                    0,
                )
            } else if colors.len() == 5 {
                (
                    String::from_str("k"),
                    parse_or_zero(&colors[0]),
                    parse_or_zero(&colors[1]),
                    parse_or_zero(&colors[2]),
                    parse_or_zero(&colors[3]),
                )
            } else {
                (String::from_str("g"), 0, 0, 0, 0)
            };
            (font, color)
        },
    }
}

// ---------------------------------------------------------------------------
// parse_da
// ---------------------------------------------------------------------------

/// What [`parse_da`] yields: with exactly five space-separated tokens after
/// leading slashes are removed, the first names the font, the second is the
/// size, the fourth the color value and the fifth the color operator; any
/// other token count yields the defaults.
pub open spec fn spec_parse_da_rel(da: Seq<u8>, out: (Seq<u8>, i32, i32, Seq<u8>)) -> bool {
    let toks = spec_split(spec_trim_start_slashes(da), seq![B_SPACE]);
    if toks.len() != 5 {
        out == (spec_helv_bytes(), 12i32, 0i32, spec_g_bytes())
    } else {
        out == (toks[0], spec_or_zero(spec_parse_i32(toks[1])), spec_or_zero(
            spec_parse_i32(toks[3]),
        ), toks[4])
    }
}

/// Reads a default-appearance string into the font name, size, color value
/// and color operator used when a text field's appearance is regenerated.
pub(crate) fn parse_da(da: &[u8]) -> (r: (Vec<u8>, i32, i32, Vec<u8>))
    ensures
        spec_parse_da_rel(da@, (r.0@, r.1, r.2, r.3@)),
{
    let trimmed = trim_start_slashes(da);
    let space = space_sep();
    let toks = split_bytes(trimmed.as_slice(), space.as_slice());
    let ghost stoks = spec_split(spec_trim_start_slashes(da@), seq![B_SPACE]);
    proof {
        assert(toks.deep_view() =~~= stoks);
        assert(toks@.len() == stoks.len());
    }
    if toks.len() != 5 {
        (helv_bytes(), 12, 0, g_bytes())
    } else {
        proof {
            assert(toks@[0]@ == stoks[0]);
            assert(toks@[1]@ == stoks[1]);
            assert(toks@[3]@ == stoks[3]);
            assert(toks@[4]@ == stoks[4]);
        }
        let name = copy_bytes(&toks[0]);
        let size = parse_or_zero(&toks[1]);
        let cval = parse_or_zero(&toks[3]);
        let cop = copy_bytes(&toks[4]);
        (name, size, cval, cop)
    }
}

fn copy_bytes(v: &Vec<u8>) -> (r: Vec<u8>)
    ensures
        r@ == v@,
{
    let mut r: Vec<u8> = Vec::new();
    let mut i: usize = 0;
    while i < v.len()
        invariant
            i <= v@.len(),
            r@ =~= v@.take(i as int),
        decreases v@.len() - i,
    {
        r.push(v[i]);
        i += 1;
        proof {
            assert(r@ =~= v@.take(i as int));
        }
    }
    proof {
        assert(v@.take(i as int) =~= v@);
    }
    r
}

} // verus!

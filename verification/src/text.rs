//! Byte-level text utilities: decimal rendering and parsing, splitting on a
//! separator, trimming, and ASCII case folding.
//!
//! Field names, option names and appearance specifications all travel as
//! byte strings; the routines here give them exact specifications.

use vstd::prelude::*;

verus! {

/// ASCII codes used by the parsers below.
pub const B_D0: u8 = 48;

pub const B_D9: u8 = 57;

pub const B_UA: u8 = 65;

pub const B_UZ: u8 = 90;

pub const B_MINUS: u8 = 45;

pub const B_PLUS: u8 = 43;

pub const B_SPACE: u8 = 32;

pub const B_TAB: u8 = 9;

pub const B_LF: u8 = 10;

pub const B_VT: u8 = 11;

pub const B_FF: u8 = 12;

pub const B_CR: u8 = 13;

pub const B_SLASH: u8 = 47;

// ---------------------------------------------------------------------------
// Decimal rendering of an unsigned number
// ---------------------------------------------------------------------------

pub open spec fn spec_digit_char(d: nat) -> char {
    if d == 0 {
        '0'
    } else if d == 1 {
        '1'
    } else if d == 2 {
        '2'
    } else if d == 3 {
        '3'
    } else if d == 4 {
        '4'
    } else if d == 5 {
        '5'
    } else if d == 6 {
        '6'
    } else if d == 7 {
        '7'
    } else if d == 8 {
        '8'
    } else {
        '9'
    }
}

/// The decimal digit string of `n`, most significant digit first.
pub open spec fn spec_dec_chars(n: nat) -> Seq<char>
    decreases n,
{
    if n < 10 {
        seq![spec_digit_char(n)]
    } else {
        spec_dec_chars(n / 10).push(spec_digit_char(n % 10))
    }
}

fn digit_str(d: usize) -> (r: &'static str)
    requires
        d < 10,
    ensures
        r@ == seq![spec_digit_char(d as nat)],
{
    proof {
        reveal_strlit("0");
        reveal_strlit("1");
        reveal_strlit("2");
        reveal_strlit("3");
        reveal_strlit("4");
        reveal_strlit("5");
        reveal_strlit("6");
        reveal_strlit("7");
        reveal_strlit("8");
        reveal_strlit("9");
    }
    let r = match d {
        0 => "0",
        1 => "1",
        2 => "2",
        3 => "3",
        4 => "4",
        5 => "5",
        6 => "6",
        7 => "7",
        8 => "8",
        _ => "9",
    };
    proof {
        assert(r@ =~= seq![spec_digit_char(d as nat)]);
    }
    r
}

fn push_dec_chars(s: &mut String, n: usize)
    ensures
        final(s)@ == old(s)@ + spec_dec_chars(n as nat),
    decreases n,
{
    if n >= 10 {
        push_dec_chars(s, n / 10);
        s.append(digit_str(n % 10));
        proof {
            assert(final(s)@ =~= old(s)@ + spec_dec_chars(n as nat));
        }
    } else {
        s.append(digit_str(n));
        proof {
            assert(final(s)@ =~= old(s)@ + spec_dec_chars(n as nat));
        }
    }
}

/// Renders `n` in decimal, as `usize::to_string` would.
pub fn usize_to_dec_string(n: usize) -> (s: String)
    ensures
        s@ == spec_dec_chars(n as nat),
{
    let mut s = String::new();
    push_dec_chars(&mut s, n);
    proof {
        assert(s@ =~= spec_dec_chars(n as nat));
    }
    s
}

// ---------------------------------------------------------------------------
// Decimal parsing, as `str::parse::<i32>` behaves on ASCII bytes
// ---------------------------------------------------------------------------

pub open spec fn spec_is_digit(b: u8) -> bool {
    B_D0 <= b && b <= B_D9
}

pub open spec fn spec_all_digits(s: Seq<u8>) -> bool {
    forall|i: int| 0 <= i < s.len() ==> spec_is_digit(#[trigger] s[i])
}

/// The value of a digit string, most significant digit first.
pub open spec fn spec_dec_val(s: Seq<u8>) -> int
    decreases s.len(),
{
    if s.len() == 0 {
        0
    } else {
        spec_dec_val(s.drop_last()) * 10 + (s.last() - B_D0)
    }
}

/// What `str::parse::<i32>` yields on this byte string: an optional sign,
/// then one or more decimal digits, rejected on overflow.
pub open spec fn spec_parse_i32(s: Seq<u8>) -> Option<i32> {
    let negative = s.len() > 0 && s[0] == B_MINUS;
    let digits = if s.len() > 0 && (s[0] == B_MINUS || s[0] == B_PLUS) {
        s.skip(1)
    } else {
        s
    };
    if digits.len() == 0 || !spec_all_digits(digits) {
        None
    } else {
        let v = if negative {
            -spec_dec_val(digits)
        } else {
            spec_dec_val(digits)
        };
        if i32::MIN <= v && v <= i32::MAX {
            Some(v as i32)
        } else {
            None
        }
    }
}

proof fn lemma_dec_val_nonneg(s: Seq<u8>)
    requires
        spec_all_digits(s),
    ensures
        spec_dec_val(s) >= 0,
    decreases s.len(),
{
    if s.len() > 0 {
        assert(spec_all_digits(s.drop_last())) by {
            assert(forall|i: int|
                0 <= i < s.len() - 1 ==> s.drop_last()[i] == #[trigger] s[i]);
        }
        lemma_dec_val_nonneg(s.drop_last());
    }
}

proof fn lemma_dec_val_monotone(s: Seq<u8>, k: int)
    requires
        spec_all_digits(s),
        0 <= k <= s.len(),
    ensures
        spec_dec_val(s) >= spec_dec_val(s.take(k)),
    decreases s.len() - k,
{
    if k < s.len() {
        lemma_dec_val_monotone(s, k + 1);
        let t = s.take(k + 1);
        assert(t.drop_last() =~= s.take(k));
        assert(spec_all_digits(s.take(k))) by {
            assert(forall|i: int|
                0 <= i < k ==> s.take(k)[i] == #[trigger] s[i]);
        }
        lemma_dec_val_nonneg(s.take(k));
        assert(spec_dec_val(t) == spec_dec_val(s.take(k)) * 10 + (t.last() - B_D0));
        assert(t.last() == s[k]);
        assert(spec_dec_val(t) >= spec_dec_val(s.take(k)));
    } else {
        assert(s.take(k) =~= s);
    }
}

/// Parses the byte string as `str::parse::<i32>` would parse the
/// corresponding ASCII text.
pub fn parse_i32_bytes(s: &[u8]) -> (r: Option<i32>)
    ensures
        r == spec_parse_i32(s@),
{
    let len = s.len();
    let negative = len > 0 && s[0] == B_MINUS;
    let start: usize = if len > 0 && (s[0] == B_MINUS || s[0] == B_PLUS) {
        1
    } else {
        0
    };
    let ghost digits = if s@.len() > 0 && (s@[0] == B_MINUS || s@[0] == B_PLUS) {
        s@.skip(1)
    } else {
        s@
    };
    proof {
        assert(digits =~= s@.subrange(start as int, len as int));
    }
    if start >= len {
        return None;
    }
    let mut acc: i64 = 0;
    let mut i: usize = start;
    while i < len
        invariant
            start <= i <= len,
            len == s@.len(),
            start + digits.len() == len,
            digits == (if s@.len() > 0 && (s@[0] == B_MINUS || s@[0] == B_PLUS) {
                s@.skip(1)
            } else {
                s@
            }),
            start == (if s@.len() > 0 && (s@[0] == B_MINUS || s@[0] == B_PLUS) {
                1int
            } else {
                0int
            }),
            negative == (s@.len() > 0 && s@[0] == B_MINUS),
            digits =~= s@.subrange(start as int, len as int),
            spec_all_digits(digits.take(i - start)),
            acc == spec_dec_val(digits.take(i - start)),
            0 <= acc <= 0x8000_0000i64,
        decreases len - i,
    {
        let b = s[i];
        if b < B_D0 || b > B_D9 {
            proof {
                assert(digits[i - start] == s@[i as int]);
                assert(!spec_all_digits(digits)) by {
                    assert(!spec_is_digit(digits[i - start]));
                }
                assert(spec_parse_i32(s@) is None);
            }
            return None;
        }
        let d = (b - B_D0) as i64;
        acc = acc * 10 + d;
        i += 1;
        proof {
            let t = digits.take(i - start);
            assert(t.drop_last() =~= digits.take(i - start - 1));
            assert(t.last() == digits[i - start - 1] == s@[i - 1]);
            assert(spec_all_digits(t)) by {
                assert(forall|j: int|
                    0 <= j < t.len() - 1 ==> t[j] == #[trigger] t.drop_last()[j]);
            }
        }
        if acc > 0x8000_0000i64 {
            proof {
                if spec_all_digits(digits) {
                    lemma_dec_val_monotone(digits, i - start);
                    assert(spec_dec_val(digits) >= acc);
                    assert(spec_dec_val(digits) > 0x8000_0000int);
                }
                assert(spec_parse_i32(s@) is None);
            }
            return None;
        }
    }
    proof {
        assert(digits.take(i - start) =~= digits);
    }
    if negative {
        proof {
            assert(-acc >= i32::MIN);
        }
        Some((-acc) as i32)
    } else {
        if acc <= 0x7fff_ffffi64 {
            Some(acc as i32)
        } else {
            None
        }
    }
}

// ---------------------------------------------------------------------------
// ASCII case folding
// ---------------------------------------------------------------------------

pub open spec fn spec_lower_byte(b: u8) -> u8 {
    if B_UA <= b && b <= B_UZ {
        (b + 32) as u8
    } else {
        b
    }
}

pub open spec fn spec_lower(s: Seq<u8>) -> Seq<u8> {
    s.map_values(|b: u8| spec_lower_byte(b))
}

/// ASCII-lowercases every byte.
pub fn lower_bytes(s: &[u8]) -> (r: Vec<u8>)
    ensures
        r@ == spec_lower(s@),
{
    let mut r: Vec<u8> = Vec::new();
    let mut i: usize = 0;
    while i < s.len()
        invariant
            0 <= i <= s@.len(),
            r@ =~= spec_lower(s@.take(i as int)),
        decreases s@.len() - i,
    {
        let b = s[i];
        let lb = if b >= B_UA && b <= B_UZ {
            b + 32
        } else {
            b
        };
        r.push(lb);
        i += 1;
        proof {
            assert(r@ =~= spec_lower(s@.take(i as int)));
        }
    }
    proof {
        assert(s@.take(i as int) =~= s@);
    }
    r
}

// ---------------------------------------------------------------------------
// Finding and splitting on a separator, as `str::split` behaves
// ---------------------------------------------------------------------------

pub open spec fn spec_is_match(s: Seq<u8>, i: int, sep: Seq<u8>) -> bool {
    0 <= i && i + sep.len() <= s.len() && s.subrange(i, i + sep.len()) == sep
}

/// Index of the first occurrence of `sep` in `s`.
pub open spec fn spec_find(s: Seq<u8>, sep: Seq<u8>) -> Option<int>
    decreases s.len(),
{
    if s.len() < sep.len() {
        None
    } else if s.subrange(0, sep.len() as int) == sep {
        Some(0)
    } else if s.len() == 0 {
        None
    } else {
        match spec_find(s.skip(1), sep) {
            Some(i) => Some(i + 1),
            None => None,
        }
    }
}

proof fn lemma_find_props(s: Seq<u8>, sep: Seq<u8>)
    requires
        sep.len() > 0,
    ensures
        match spec_find(s, sep) {
            Some(i) => spec_is_match(s, i, sep) && forall|j: int|
                0 <= j < i ==> !spec_is_match(s, j, sep),
            None => forall|j: int| !spec_is_match(s, j, sep),
        },
    decreases s.len(),
{
    if s.len() < sep.len() {
        assert(forall|j: int| !spec_is_match(s, j, sep));
    } else if s.subrange(0, sep.len() as int) == sep {
        assert(spec_is_match(s, 0, sep));
    } else {
        lemma_find_props(s.skip(1), sep);
        assert forall|j: int| 1 <= j implies
            spec_is_match(s, j, sep) == spec_is_match(s.skip(1), j - 1, sep) by {
            if 0 <= j - 1 && j - 1 + sep.len() <= s.skip(1).len() {
                assert(s.skip(1).subrange(j - 1, j - 1 + sep.len()) =~= s.subrange(
                    j,
                    j + sep.len(),
                ));
            }
        }
        assert(!spec_is_match(s, 0, sep));
        match spec_find(s.skip(1), sep) {
            Some(i) => {
                assert(spec_find(s, sep) == Some(i + 1));
                assert(spec_is_match(s, i + 1, sep));
            },
            None => {
                assert(spec_find(s, sep) is None);
            },
        }
    }
}

/// Finds the first occurrence of `sep` in `s` at or after `start`.
fn find_from(s: &[u8], start: usize, sep: &[u8]) -> (r: Option<usize>)
    requires
        sep@.len() > 0,
        start <= s@.len(),
    ensures
        match r {
            Some(i) => start <= i && i + sep@.len() <= s@.len() && Some(i - start)
                == spec_find(s@.skip(start as int), sep@),
            None => spec_find(s@.skip(start as int), sep@) is None,
        },
{
    let ghost tail = s@.skip(start as int);
    if s.len() < sep.len() || start > s.len() - sep.len() {
        proof {
            lemma_find_props(tail, sep@);
            assert(forall|j: int| !spec_is_match(tail, j, sep@));
        }
        return None;
    }
    let last = s.len() - sep.len();
    let mut i: usize = start;
    while i <= last
        invariant
            sep@.len() > 0,
            s@.len() <= usize::MAX,
            start <= i <= last + 1,
            last + sep@.len() == s@.len(),
            tail == s@.skip(start as int),
            forall|j: int| 0 <= j < i - start ==> !spec_is_match(tail, j, sep@),
        decreases last + 1 - i,
    {
        let mut j: usize = 0;
        let mut matches = true;
        while j < sep.len()
            invariant
                sep@.len() > 0,
                s@.len() <= usize::MAX,
                start <= i <= last,
                last + sep@.len() == s@.len(),
                j <= sep@.len(),
                matches == (forall|k: int| 0 <= k < j ==> s@[i + k] == sep@[k]),
            decreases sep@.len() - j,
        {
            if s[i + j] != sep[j] {
                matches = false;
                j = sep.len();
            } else {
                j += 1;
            }
        }
        if matches {
            proof {
                lemma_find_props(tail, sep@);
                assert(tail.subrange(i - start, i - start + sep@.len()) =~= sep@);
                assert(spec_is_match(tail, i - start, sep@));
                if spec_find(tail, sep@) is None {
                    assert(!spec_is_match(tail, i - start, sep@));
                    assert(false);
                }
                let k = spec_find(tail, sep@)->Some_0;
                if k < i - start {
                    assert(spec_is_match(tail, k, sep@));
                    assert(false);
                }
                if k > i - start {
                    assert(!spec_is_match(tail, i - start, sep@));
                    assert(false);
                }
                assert(k == i - start);
            }
            return Some(i);
        }
        proof {
            let w = choose|k: int| 0 <= k < sep@.len() && s@[i + k] != sep@[k];
            assert(tail.subrange(i - start, i - start + sep@.len())[w] == s@[i + w]);
            assert(!spec_is_match(tail, i - start, sep@));
        }
        i += 1;
    }
    proof {
        lemma_find_props(tail, sep@);
        assert(forall|j: int| j + sep@.len() > tail.len() ==> !spec_is_match(tail, j, sep@));
        assert(forall|j: int| !spec_is_match(tail, j, sep@));
    }
    None
}

/// `s` split on the separator, empty tokens kept, as `str::split` yields them.
pub open spec fn spec_split(s: Seq<u8>, sep: Seq<u8>) -> Seq<Seq<u8>>
    decreases s.len(),
{
    if sep.len() == 0 {
        seq![s]
    } else if s.len() < sep.len() {
        seq![s]
    } else if s.subrange(0, sep.len() as int) == sep {
        seq![Seq::<u8>::empty()] + spec_split(s.skip(sep.len() as int), sep)
    } else {
        let rest = spec_split(s.skip(1), sep);
        rest.update(0, seq![s[0]] + rest[0])
    }
}

proof fn lemma_split_len(s: Seq<u8>, sep: Seq<u8>)
    ensures
        spec_split(s, sep).len() >= 1,
    decreases s.len(),
{
    if sep.len() == 0 || s.len() < sep.len() {
    } else if s.subrange(0, sep.len() as int) == sep {
        lemma_split_len(s.skip(sep.len() as int), sep);
    } else {
        lemma_split_len(s.skip(1), sep);
    }
}

/// Splitting steps over the first separator occurrence.
proof fn lemma_split_step(s: Seq<u8>, sep: Seq<u8>)
    requires
        sep.len() > 0,
    ensures
        match spec_find(s, sep) {
            None => spec_split(s, sep) =~= seq![s],
            Some(i) => spec_split(s, sep) =~= seq![s.take(i)] + spec_split(
                s.skip(i + sep.len()),
                sep,
            ),
        },
    decreases s.len(),
{
    lemma_split_len(s, sep);
    if s.len() < sep.len() {
    } else if s.subrange(0, sep.len() as int) == sep {
        assert(spec_find(s, sep) == Some(0int));
        assert(s.take(0) =~= Seq::<u8>::empty());
    } else {
        lemma_split_step(s.skip(1), sep);
        lemma_split_len(s.skip(1), sep);
        match spec_find(s.skip(1), sep) {
            None => {
                assert(spec_find(s, sep) is None);
                assert(seq![s[0]] + s.skip(1) =~= s);
                assert(spec_split(s.skip(1), sep) =~= seq![s.skip(1)]);
                assert(spec_split(s, sep) =~= seq![s]);
            },
            Some(i) => {
                lemma_find_props(s.skip(1), sep);
                assert(spec_is_match(s.skip(1), i, sep));
                assert(spec_find(s, sep) == Some(i + 1));
                let rest = spec_split(s.skip(1), sep);
                assert(rest =~= seq![s.skip(1).take(i)] + spec_split(
                    s.skip(1).skip(i + sep.len()),
                    sep,
                ));
                assert(seq![s[0]] + s.skip(1).take(i) =~= s.take(i + 1));
                assert(s.skip(1).skip(i + sep.len()) =~= s.skip(i + 1 + sep.len()));
                assert(spec_split(s, sep) =~= rest.update(0, seq![s[0]] + rest[0]));
                assert(spec_split(s, sep) =~= seq![s.take(i + 1)] + spec_split(
                    s.skip(i + 1 + sep.len()),
                    sep,
                ));
            },
        }
    }
}

fn copy_range(s: &[u8], a: usize, b: usize) -> (r: Vec<u8>)
    requires
        a <= b <= s@.len(),
    ensures
        r@ == s@.subrange(a as int, b as int),
{
    let sub = vstd::slice::slice_subrange(s, a, b);
    vstd::slice::slice_to_vec(sub)
}

/// Splits `s` on the separator, empty tokens kept, as `str::split` would.
pub fn split_bytes(s: &[u8], sep: &[u8]) -> (r: Vec<Vec<u8>>)
    requires
        sep@.len() > 0,
    ensures
        r.deep_view() == spec_split(s@, sep@),
{
    let slen = s.len();
    let mut r: Vec<Vec<u8>> = Vec::new();
    let mut pos: usize = 0;
    proof {
        assert(s@.skip(0) =~= s@);
        assert(r.deep_view() + spec_split(s@, sep@) =~= spec_split(s@, sep@));
    }
    loop
        invariant
            sep@.len() > 0,
            s@.len() <= usize::MAX,
            pos <= s@.len(),
            spec_split(s@, sep@) =~~= r.deep_view() + spec_split(s@.skip(pos as int), sep@),
        decreases s@.len() - pos,
    {
        proof {
            lemma_split_step(s@.skip(pos as int), sep@);
        }
        match find_from(s, pos, sep) {
            None => {
                let tok = copy_range(s, pos, s.len());
                let ghost prev = r.deep_view();
                r.push(tok);
                proof {
                    assert(r.deep_view() =~~= prev.push(tok@));
                    assert(spec_split(s@, sep@) =~~= r.deep_view());
                }
                return r;
            },
            Some(i) => {
                let tok = copy_range(s, pos, i);
                let ghost prev = r.deep_view();
                r.push(tok);
                proof {
                    assert(r.deep_view() =~~= prev.push(tok@));
                    assert(s@.skip(pos as int).take(i - pos) =~= s@.subrange(
                        pos as int,
                        i as int,
                    ));
                    assert(s@.skip(pos as int).skip(i - pos + sep@.len()) =~= s@.skip(
                        i + sep@.len(),
                    ));
                }
                pos = i + sep.len();
            },
        }
    }
}

// ---------------------------------------------------------------------------
// Decoding byte strings
// ---------------------------------------------------------------------------

/// Relies on `String::from_utf8`, whose documentation promises that it
/// accepts exactly the valid UTF-8 byte strings and decodes them; validity
/// and decoding are stated with the UTF-8 model that `vstd` also uses for
/// `str::from_utf8_unchecked`.
#[verifier::external_body]
pub(crate) fn utf8_string(b: &[u8]) -> (r: Option<String>)
    ensures
        r is Some <==> vstd::utf8::valid_utf8(b@),
        match r {
            Option::Some(s) => s@ == vstd::utf8::decode_utf8(b@),
            Option::None => true,
        },
{
    match String::from_utf8(b.to_vec()) {
        Ok(s) => Some(s),
        Err(_) => None,
    }
}

// ---------------------------------------------------------------------------
// Trimming
// ---------------------------------------------------------------------------

/// The ASCII whitespace bytes: space, tab, line feed, vertical tab, form
/// feed and carriage return. Trimming here works on these alone; other
/// whitespace characters are left in place.
pub open spec fn spec_is_ascii_ws(b: u8) -> bool {
    b == B_SPACE || b == B_TAB || b == B_LF || b == B_VT || b == B_FF || b == B_CR
}

/// `s` with leading and trailing ASCII whitespace removed.
pub open spec fn spec_trim(s: Seq<u8>) -> Seq<u8>
    decreases s.len(),
{
    if s.len() == 0 {
        s
    } else if spec_is_ascii_ws(s[0]) {
        spec_trim(s.skip(1))
    } else if spec_is_ascii_ws(s.last()) {
        spec_trim(s.drop_last())
    } else {
        s
    }
}

fn is_ws(b: u8) -> (r: bool)
    ensures
        r == spec_is_ascii_ws(b),
{
    b == B_SPACE || b == B_TAB || b == B_LF || b == B_VT || b == B_FF || b == B_CR
}

/// Removes leading and trailing ASCII whitespace.
pub fn trim_bytes(s: &[u8]) -> (r: Vec<u8>)
    ensures
        r@ == spec_trim(s@),
{
    let mut lo: usize = 0;
    let mut hi: usize = s.len();
    proof {
        assert(s@.subrange(0, s@.len() as int) =~= s@);
    }
    while lo < hi && is_ws(s[lo])
        invariant
            lo <= hi <= s@.len(),
            spec_trim(s@) == spec_trim(s@.subrange(lo as int, hi as int)),
            hi == s@.len(),
        decreases hi - lo,
    {
        proof {
            assert(s@.subrange(lo as int, hi as int).skip(1) =~= s@.subrange(
                lo + 1,
                hi as int,
            ));
        }
        lo += 1;
    }
    while lo < hi && is_ws(s[hi - 1])
        invariant
            lo <= hi <= s@.len(),
            spec_trim(s@) == spec_trim(s@.subrange(lo as int, hi as int)),
            lo < hi ==> !spec_is_ascii_ws(s@[lo as int]),
        decreases hi - lo,
    {
        proof {
            assert(s@.subrange(lo as int, hi as int).drop_last() =~= s@.subrange(
                lo as int,
                hi - 1,
            ));
        }
        hi -= 1;
    }
    proof {
        let sub = s@.subrange(lo as int, hi as int);
        assert(spec_trim(sub) =~= sub);
    }
    copy_range(s, lo, hi)
}

/// `s` with every leading `/` removed, as `str::trim_start_matches('/')`.
pub open spec fn spec_trim_start_slashes(s: Seq<u8>) -> Seq<u8>
    decreases s.len(),
{
    if s.len() > 0 && s[0] == B_SLASH {
        spec_trim_start_slashes(s.skip(1))
    } else {
        s
    }
}

/// Removes every leading `/` byte.
pub fn trim_start_slashes(s: &[u8]) -> (r: Vec<u8>)
    ensures
        r@ == spec_trim_start_slashes(s@),
{
    let mut lo: usize = 0;
    proof {
        assert(s@.subrange(0, s@.len() as int) =~= s@);
    }
    while lo < s.len() && s[lo] == B_SLASH
        invariant
            lo <= s@.len(),
            spec_trim_start_slashes(s@) == spec_trim_start_slashes(
                s@.subrange(lo as int, s@.len() as int),
            ),
        decreases s@.len() - lo,
    {
        proof {
            assert(s@.subrange(lo as int, s@.len() as int).skip(1) =~= s@.subrange(
                lo + 1,
                s@.len() as int,
            ));
        }
        lo += 1;
    }
    proof {
        let sub = s@.subrange(lo as int, s@.len() as int);
        assert(spec_trim_start_slashes(sub) =~= sub);
    }
    copy_range(s, lo, s.len())
}

} // verus!

//! Verified transcoding between UTF-8 and UTF-16LE, as used by the text
//! clipboard.
//!
//! Malformed input never fails: an invalid byte, an overlong (non-shortest)
//! UTF-8 encoding, or a lone surrogate decodes to U+FFFD, the replacement
//! character, and decoding resumes at the next unit.

use vstd::prelude::*;

verus! {

/// The replacement character U+FFFD.
pub const REPLACEMENT: u32 = 0xFFFD;

/// A Unicode scalar value: in range and not a surrogate.
pub open spec fn valid_scalar(v: u32) -> bool {
    v <= 0x10FFFF && !(0xD800 <= v && v <= 0xDFFF)
}

/// A UTF-8 continuation byte.
pub open spec fn is_cont(b: u8) -> bool {
    0x80 <= b && b < 0xC0
}

/// How many bytes the sequence starting at `i` consumes: the width its
/// leading byte announces when the full, well-formed sequence is present,
/// and 1 otherwise (the malformed byte is consumed alone).
pub open spec fn utf8_step_width(b: Seq<u8>, i: int) -> int {
    let b0 = b[i];
    if b0 < 0x80 {
        1
    } else if 0xC0 <= b0 && b0 < 0xE0 {
        if i + 2 <= b.len() && is_cont(b[i + 1]) {
            2
        } else {
            1
        }
    } else if 0xE0 <= b0 && b0 < 0xF0 {
        if i + 3 <= b.len() && is_cont(b[i + 1]) && is_cont(b[i + 2]) {
            3
        } else {
            1
        }
    } else if 0xF0 <= b0 && b0 < 0xF8 {
        if i + 4 <= b.len() && is_cont(b[i + 1]) && is_cont(b[i + 2]) && is_cont(b[i + 3]) {
            4
        } else {
            1
        }
    } else {
        1
    }
}

/// The scalar decoded at `i`, U+FFFD when the sequence is malformed,
/// overlong, or decodes out of range.
pub open spec fn utf8_step_scalar(b: Seq<u8>, i: int) -> u32 {
    let b0 = b[i];
    let w = utf8_step_width(b, i);
    if b0 < 0x80 {
        b0 as u32
    } else if w == 2 {
        let v = (((b0 as u32) & 0x1F) << 6) | ((b[i + 1] as u32) & 0x3F);
        if v >= 0x80 {
            v
        } else {
            REPLACEMENT
        }
    } else if w == 3 {
        let v = (((b0 as u32) & 0x0F) << 12) | (((b[i + 1] as u32) & 0x3F) << 6)
            | ((b[i + 2] as u32) & 0x3F);
        if v >= 0x800 && valid_scalar(v) {
            v
        } else {
            REPLACEMENT
        }
    } else if w == 4 {
        let v = (((b0 as u32) & 0x07) << 18) | (((b[i + 1] as u32) & 0x3F) << 12)
            | (((b[i + 2] as u32) & 0x3F) << 6) | ((b[i + 3] as u32) & 0x3F);
        if v >= 0x10000 && valid_scalar(v) {
            v
        } else {
            REPLACEMENT
        }
    } else {
        REPLACEMENT
    }
}

/// The scalar values of the UTF-8 bytes from `i` on, with replacement.
pub open spec fn utf8_scalars_from(b: Seq<u8>, i: int) -> Seq<u32>
    decreases b.len() - i,
{
    if i < 0 || i >= b.len() {
        Seq::empty()
    } else {
        seq![utf8_step_scalar(b, i)] + utf8_scalars_from(b, i + utf8_step_width(b, i))
    }
}

/// The scalar values of a whole UTF-8 byte string.
pub open spec fn utf8_scalars(b: Seq<u8>) -> Seq<u32> {
    utf8_scalars_from(b, 0)
}

/// The UTF-16 code units of one scalar value.
pub open spec fn scalar_units(v: u32) -> Seq<u16> {
    if v < 0x10000 {
        seq![v as u16]
    } else {
        let t = (v - 0x10000) as u32;
        seq![(0xD800 + (t >> 10u32)) as u16, (0xDC00 + (t & 0x3FF)) as u16]
    }
}

/// The UTF-16 code units of the scalars from `i` on.
pub open spec fn scalars_to_units_from(s: Seq<u32>, i: int) -> Seq<u16>
    decreases s.len() - i,
{
    if i < 0 || i >= s.len() {
        Seq::empty()
    } else {
        scalar_units(s[i]) + scalars_to_units_from(s, i + 1)
    }
}

/// The UTF-16 code units of a scalar sequence.
pub open spec fn scalars_to_units(s: Seq<u32>) -> Seq<u16> {
    scalars_to_units_from(s, 0)
}

/// The little-endian bytes of the code units from `i` on.
pub open spec fn units_le_bytes_from(u: Seq<u16>, i: int) -> Seq<u8>
    decreases u.len() - i,
{
    if i < 0 || i >= u.len() {
        Seq::empty()
    } else {
        seq![(u[i] & 0xFF) as u8, (u[i] >> 8u16) as u8] + units_le_bytes_from(u, i + 1)
    }
}

/// The little-endian bytes of a code-unit sequence.
pub open spec fn units_le_bytes(u: Seq<u16>) -> Seq<u8> {
    units_le_bytes_from(u, 0)
}

/// The code units read from little-endian bytes from `i` on; a trailing
/// odd byte is dropped.
pub open spec fn le_bytes_units_from(b: Seq<u8>, i: int) -> Seq<u16>
    decreases b.len() - i,
{
    if i < 0 || i + 2 > b.len() {
        Seq::empty()
    } else {
        seq![(b[i] as u16) | ((b[i + 1] as u16) << 8u16)] + le_bytes_units_from(b, i + 2)
    }
}

/// The code units read from little-endian bytes; a trailing odd byte is
/// dropped.
pub open spec fn le_bytes_units(b: Seq<u8>) -> Seq<u16> {
    le_bytes_units_from(b, 0)
}

/// How many code units the sequence at `i` consumes: 2 for a well-formed
/// surrogate pair, else 1.
pub open spec fn utf16_step_width(u: Seq<u16>, i: int) -> int {
    let c = u[i];
    if 0xD800 <= c && c < 0xDC00 && i + 2 <= u.len() && 0xDC00 <= u[i + 1] && u[i + 1] < 0xE000 {
        2
    } else {
        1
    }
}

/// The scalar decoded at `i`; a lone surrogate becomes U+FFFD.
pub open spec fn utf16_step_scalar(u: Seq<u16>, i: int) -> u32 {
    let c = u[i];
    if utf16_step_width(u, i) == 2 {
        let hi = (c - 0xD800) as u32;
        let lo = (u[i + 1] - 0xDC00) as u32;
        (0x10000 + (hi << 10u32) + lo) as u32
    } else if 0xD800 <= c && c < 0xE000 {
        REPLACEMENT
    } else {
        c as u32
    }
}

/// The scalar values of the UTF-16 code units from `i` on, with
/// replacement.
pub open spec fn utf16_scalars_from(u: Seq<u16>, i: int) -> Seq<u32>
    decreases u.len() - i,
{
    if i < 0 || i >= u.len() {
        Seq::empty()
    } else {
        seq![utf16_step_scalar(u, i)] + utf16_scalars_from(u, i + utf16_step_width(u, i))
    }
}

/// The scalar values of a whole code-unit sequence.
pub open spec fn utf16_scalars(u: Seq<u16>) -> Seq<u32> {
    utf16_scalars_from(u, 0)
}

/// The UTF-8 bytes of one scalar value.
pub open spec fn scalar_utf8(v: u32) -> Seq<u8> {
    if v < 0x80 {
        seq![v as u8]
    } else if v < 0x800 {
        seq![(0xC0 | (v >> 6)) as u8, (0x80 | (v & 0x3F)) as u8]
    } else if v < 0x10000 {
        seq![
            (0xE0 | (v >> 12)) as u8,
            (0x80 | ((v >> 6) & 0x3F)) as u8,
            (0x80 | (v & 0x3F)) as u8,
        ]
    } else {
        seq![
            (0xF0 | (v >> 18)) as u8,
            (0x80 | ((v >> 12) & 0x3F)) as u8,
            (0x80 | ((v >> 6) & 0x3F)) as u8,
            (0x80 | (v & 0x3F)) as u8,
        ]
    }
}

/// The UTF-8 bytes of the scalars from `i` on.
pub open spec fn scalars_to_utf8_from(s: Seq<u32>, i: int) -> Seq<u8>
    decreases s.len() - i,
{
    if i < 0 || i >= s.len() {
        Seq::empty()
    } else {
        scalar_utf8(s[i]) + scalars_to_utf8_from(s, i + 1)
    }
}

/// The UTF-8 bytes of a scalar sequence.
pub open spec fn scalars_to_utf8(s: Seq<u32>) -> Seq<u8> {
    scalars_to_utf8_from(s, 0)
}

} // verus!

verus! {

/// Every scalar a UTF-8 decode yields is a valid scalar value.
pub proof fn lemma_utf8_scalars_valid(b: Seq<u8>, i: int)
    ensures
        forall|j: int| 0 <= j < utf8_scalars_from(b, i).len()
            ==> valid_scalar(#[trigger] utf8_scalars_from(b, i)[j]),
    decreases b.len() - i,
{
    if 0 <= i && i < b.len() {
        let w = utf8_step_width(b, i);
        lemma_utf8_scalars_valid(b, i + w);
        let b0 = b[i] as u32;
        if b[i] < 0x80 {
            assert(valid_scalar(utf8_step_scalar(b, i)));
        } else if w == 2 {
            let b1 = b[i + 1] as u32;
            assert(((b0 & 0x1F) << 6) | (b1 & 0x3F) <= 0x7FF) by (bit_vector);
            assert(valid_scalar(utf8_step_scalar(b, i)));
        } else {
            assert(valid_scalar(utf8_step_scalar(b, i)));
        }
        let res = utf8_scalars_from(b, i);
        let rest = utf8_scalars_from(b, i + w);
        assert forall|j: int| 0 <= j < res.len() implies valid_scalar(#[trigger] res[j]) by {
            if j == 0 {
                assert(res[j] == utf8_step_scalar(b, i));
            } else {
                assert(res[j] == rest[j - 1]);
            }
        }
    }
}

/// Every scalar a UTF-16 decode yields is a valid scalar value.
pub proof fn lemma_utf16_scalars_valid(u: Seq<u16>, i: int)
    ensures
        forall|j: int| 0 <= j < utf16_scalars_from(u, i).len()
            ==> valid_scalar(#[trigger] utf16_scalars_from(u, i)[j]),
    decreases u.len() - i,
{
    if 0 <= i && i < u.len() {
        let w = utf16_step_width(u, i);
        lemma_utf16_scalars_valid(u, i + w);
        let c = u[i];
        if w == 2 {
            let hi = (c - 0xD800) as u32;
            let lo = (u[i + 1] - 0xDC00) as u32;
            assert(hi <= 0x3FF);
            assert(lo <= 0x3FF);
            assert(hi <= 0x3FF ==> (hi << 10u32) <= 0xFFC00) by (bit_vector);
            assert(valid_scalar(utf16_step_scalar(u, i)));
        } else {
            assert(valid_scalar(utf16_step_scalar(u, i)));
        }
        let res = utf16_scalars_from(u, i);
        let rest = utf16_scalars_from(u, i + w);
        assert forall|j: int| 0 <= j < res.len() implies valid_scalar(#[trigger] res[j]) by {
            if j == 0 {
                assert(res[j] == utf16_step_scalar(u, i));
            } else {
                assert(res[j] == rest[j - 1]);
            }
        }
    }
}

/// Decodes UTF-8 bytes to scalar values, replacing malformed sequences.
pub fn utf8_to_scalars(b: &Vec<u8>) -> (s: Vec<u32>)
    ensures
        s@ == utf8_scalars(b@),
        forall|j: int| 0 <= j < s@.len() ==> valid_scalar(#[trigger] s@[j]),
{
    let mut s: Vec<u32> = Vec::new();
    let mut i: usize = 0;
    let n = b.len();
    while i < n
        invariant
            n == b@.len(),
            i <= n,
            utf8_scalars(b@) == s@ + utf8_scalars_from(b@, i as int),
        decreases n - i,
    {
        let ghost i0 = i as int;
        let b0 = b[i];
        let w: usize;
        let v: u32;
        if b0 < 0x80 {
            w = 1;
            v = b0 as u32;
        } else if 0xC0 <= b0 && b0 < 0xE0 {
            if n - i >= 2 && 0x80 <= b[i + 1] && b[i + 1] < 0xC0 {
                w = 2;
                let c = (((b0 as u32) & 0x1F) << 6) | ((b[i + 1] as u32) & 0x3F);
                v = if c >= 0x80 {
                    c
                } else {
                    REPLACEMENT
                };
            } else {
                w = 1;
                v = REPLACEMENT;
            }
        } else if 0xE0 <= b0 && b0 < 0xF0 {
            if n - i >= 3 && 0x80 <= b[i + 1] && b[i + 1] < 0xC0 && 0x80 <= b[i + 2]
                && b[i + 2] < 0xC0 {
                w = 3;
                let c = (((b0 as u32) & 0x0F) << 12) | (((b[i + 1] as u32) & 0x3F) << 6)
                    | ((b[i + 2] as u32) & 0x3F);
                v = if c >= 0x800 && c <= 0x10FFFF && !(0xD800 <= c && c <= 0xDFFF) {
                    c
                } else {
                    REPLACEMENT
                };
            } else {
                w = 1;
                v = REPLACEMENT;
            }
        } else if 0xF0 <= b0 && b0 < 0xF8 {
            if n - i >= 4 && 0x80 <= b[i + 1] && b[i + 1] < 0xC0 && 0x80 <= b[i + 2]
                && b[i + 2] < 0xC0 && 0x80 <= b[i + 3] && b[i + 3] < 0xC0 {
                w = 4;
                let c = (((b0 as u32) & 0x07) << 18) | (((b[i + 1] as u32) & 0x3F) << 12)
                    | (((b[i + 2] as u32) & 0x3F) << 6) | ((b[i + 3] as u32) & 0x3F);
                v = if c >= 0x10000 && c <= 0x10FFFF && !(0xD800 <= c && c <= 0xDFFF) {
                    c
                } else {
                    REPLACEMENT
                };
            } else {
                w = 1;
                v = REPLACEMENT;
            }
        } else {
            w = 1;
            v = REPLACEMENT;
        }
        proof {
            assert(w as int == utf8_step_width(b@, i0));
            assert(v == utf8_step_scalar(b@, i0));
        }
        let ghost s_before = s@;
        s.push(v);
        i = i + w;
        proof {
            assert(utf8_scalars_from(b@, i0) =~= seq![v] + utf8_scalars_from(b@, i as int));
            assert(s@ + utf8_scalars_from(b@, i as int) =~= s_before + utf8_scalars_from(
                b@,
                i0,
            ));
        }
    }
    proof {
        assert(s@ =~= utf8_scalars(b@));
        lemma_utf8_scalars_valid(b@, 0);
    }
    s
}

/// Encodes scalar values as UTF-16 code units.
pub fn scalars_to_utf16(s: &Vec<u32>) -> (u: Vec<u16>)
    requires
        forall|j: int| 0 <= j < s@.len() ==> valid_scalar(#[trigger] s@[j]),
    ensures
        u@ == scalars_to_units(s@),
{
    let mut u: Vec<u16> = Vec::new();
    let mut i: usize = 0;
    let n = s.len();
    while i < n
        invariant
            n == s@.len(),
            i <= n,
            forall|j: int| 0 <= j < s@.len() ==> valid_scalar(#[trigger] s@[j]),
            scalars_to_units(s@) == u@ + scalars_to_units_from(s@, i as int),
        decreases n - i,
    {
        let ghost i0 = i as int;
        let ghost u_before = u@;
        let v = s[i];
        if v < 0x10000 {
            u.push(v as u16);
            proof {
                assert(u@ =~= u_before + scalar_units(v));
            }
        } else {
            let t = v - 0x10000;
            proof {
                assert(t <= 0xFFFFF);
                assert(t <= 0xFFFFF ==> (t >> 10u32) <= 0x3FF) by (bit_vector);
                assert((t & 0x3FF) <= 0x3FF) by (bit_vector);
            }
            u.push(0xD800 + (t >> 10) as u16);
            u.push(0xDC00 + (t & 0x3FF) as u16);
            proof {
                assert(u@ =~= u_before + scalar_units(v));
            }
        }
        i = i + 1;
        proof {
            assert(scalars_to_units_from(s@, i0) =~= scalar_units(s@[i0])
                + scalars_to_units_from(s@, i as int));
            assert(u@ + scalars_to_units_from(s@, i as int) =~= u_before
                + scalars_to_units_from(s@, i0));
        }
    }
    proof {
        assert(u@ =~= scalars_to_units(s@));
    }
    u
}

/// Serializes code units as little-endian bytes.
pub fn utf16_to_le_bytes(u: &Vec<u16>) -> (b: Vec<u8>)
    ensures
        b@ == units_le_bytes(u@),
{
    let mut b: Vec<u8> = Vec::new();
    let mut i: usize = 0;
    let n = u.len();
    while i < n
        invariant
            n == u@.len(),
            i <= n,
            units_le_bytes(u@) == b@ + units_le_bytes_from(u@, i as int),
        decreases n - i,
    {
        let ghost i0 = i as int;
        let ghost b_before = b@;
        let c = u[i];
        b.push((c & 0xFF) as u8);
        b.push((c >> 8) as u8);
        i = i + 1;
        proof {
            assert(units_le_bytes_from(u@, i0) =~= seq![(u@[i0] & 0xFF) as u8, (u@[i0] >> 8u16) as u8]
                + units_le_bytes_from(u@, i as int));
            assert(b@ + units_le_bytes_from(u@, i as int) =~= b_before + units_le_bytes_from(
                u@,
                i0,
            ));
        }
    }
    proof {
        assert(b@ =~= units_le_bytes(u@));
    }
    b
}

/// Reads code units from little-endian bytes; a trailing odd byte is
/// dropped.
pub fn le_bytes_to_utf16(b: &Vec<u8>) -> (u: Vec<u16>)
    ensures
        u@ == le_bytes_units(b@),
{
    let mut u: Vec<u16> = Vec::new();
    let mut i: usize = 0;
    let n = b.len();
    while n - i >= 2
        invariant
            n == b@.len(),
            i <= n,
            le_bytes_units(b@) == u@ + le_bytes_units_from(b@, i as int),
        decreases n - i,
    {
        let ghost i0 = i as int;
        let ghost u_before = u@;
        let c = (b[i] as u16) | ((b[i + 1] as u16) << 8);
        u.push(c);
        i = i + 2;
        proof {
            assert(le_bytes_units_from(b@, i0) =~= seq![(b@[i0] as u16) | ((b@[i0 + 1] as u16) << 8u16)]
                + le_bytes_units_from(b@, i as int));
            assert(u@ + le_bytes_units_from(b@, i as int) =~= u_before + le_bytes_units_from(
                b@,
                i0,
            ));
        }
    }
    proof {
        assert(le_bytes_units_from(b@, i as int) =~= Seq::empty());
        assert(u@ =~= le_bytes_units(b@));
    }
    u
}

/// Decodes UTF-16 code units to scalar values, replacing lone surrogates.
pub fn utf16_to_scalars(u: &Vec<u16>) -> (s: Vec<u32>)
    ensures
        s@ == utf16_scalars(u@),
        forall|j: int| 0 <= j < s@.len() ==> valid_scalar(#[trigger] s@[j]),
{
    let mut s: Vec<u32> = Vec::new();
    let mut i: usize = 0;
    let n = u.len();
    while i < n
        invariant
            n == u@.len(),
            i <= n,
            utf16_scalars(u@) == s@ + utf16_scalars_from(u@, i as int),
        decreases n - i,
    {
        let ghost i0 = i as int;
        let ghost s_before = s@;
        let c = u[i];
        let w: usize;
        let v: u32;
        if 0xD800 <= c && c < 0xDC00 && n - i >= 2 && 0xDC00 <= u[i + 1] && u[i + 1] < 0xE000 {
            w = 2;
            let hi = (c - 0xD800) as u32;
            let lo = (u[i + 1] - 0xDC00) as u32;
            proof {
                assert(hi <= 0x3FF ==> (hi << 10u32) <= 0xFFC00) by (bit_vector);
            }
            v = 0x10000 + (hi << 10) + lo;
        } else if 0xD800 <= c && c < 0xE000 {
            w = 1;
            v = REPLACEMENT;
        } else {
            w = 1;
            v = c as u32;
        }
        proof {
            assert(w as int == utf16_step_width(u@, i0));
            assert(v == utf16_step_scalar(u@, i0));
        }
        s.push(v);
        i = i + w;
        proof {
            assert(utf16_scalars_from(u@, i0) =~= seq![v] + utf16_scalars_from(u@, i as int));
            assert(s@ + utf16_scalars_from(u@, i as int) =~= s_before + utf16_scalars_from(
                u@,
                i0,
            ));
        }
    }
    proof {
        assert(s@ =~= utf16_scalars(u@));
        lemma_utf16_scalars_valid(u@, 0);
    }
    s
}

/// Encodes scalar values as UTF-8 bytes.
pub fn scalars_to_utf8_bytes(s: &Vec<u32>) -> (b: Vec<u8>)
    requires
        forall|j: int| 0 <= j < s@.len() ==> valid_scalar(#[trigger] s@[j]),
    ensures
        b@ == scalars_to_utf8(s@),
{
    let mut b: Vec<u8> = Vec::new();
    let mut i: usize = 0;
    let n = s.len();
    while i < n
        invariant
            n == s@.len(),
            i <= n,
            forall|j: int| 0 <= j < s@.len() ==> valid_scalar(#[trigger] s@[j]),
            scalars_to_utf8(s@) == b@ + scalars_to_utf8_from(s@, i as int),
        decreases n - i,
    {
        let ghost i0 = i as int;
        let ghost b_before = b@;
        let v = s[i];
        if v < 0x80 {
            b.push(v as u8);
        } else if v < 0x800 {
            proof {
                assert(v < 0x800 ==> (0xC0 | (v >> 6u32)) < 0x100) by (bit_vector);
                assert((0x80 | (v & 0x3F)) < 0x100) by (bit_vector);
            }
            b.push((0xC0 | (v >> 6)) as u8);
            b.push((0x80 | (v & 0x3F)) as u8);
        } else if v < 0x10000 {
            proof {
                assert(v < 0x10000 ==> (0xE0 | (v >> 12u32)) < 0x100) by (bit_vector);
                assert((0x80 | ((v >> 6u32) & 0x3F)) < 0x100) by (bit_vector);
                assert((0x80 | (v & 0x3F)) < 0x100) by (bit_vector);
            }
            b.push((0xE0 | (v >> 12)) as u8);
            b.push((0x80 | ((v >> 6) & 0x3F)) as u8);
            b.push((0x80 | (v & 0x3F)) as u8);
        } else {
            proof {
                assert(v <= 0x10FFFF ==> (0xF0 | (v >> 18u32)) < 0x100) by (bit_vector);
                assert((0x80 | ((v >> 12u32) & 0x3F)) < 0x100) by (bit_vector);
                assert((0x80 | ((v >> 6u32) & 0x3F)) < 0x100) by (bit_vector);
                assert((0x80 | (v & 0x3F)) < 0x100) by (bit_vector);
            }
            b.push((0xF0 | (v >> 18)) as u8);
            b.push((0x80 | ((v >> 12) & 0x3F)) as u8);
            b.push((0x80 | ((v >> 6) & 0x3F)) as u8);
            b.push((0x80 | (v & 0x3F)) as u8);
        }
        proof {
            assert(b@ =~= b_before + scalar_utf8(v));
        }
        i = i + 1;
        proof {
            assert(scalars_to_utf8_from(s@, i0) =~= scalar_utf8(s@[i0]) + scalars_to_utf8_from(
                s@,
                i as int,
            ));
            assert(b@ + scalars_to_utf8_from(s@, i as int) =~= b_before + scalars_to_utf8_from(
                s@,
                i0,
            ));
        }
    }
    proof {
        assert(b@ =~= scalars_to_utf8(s@));
    }
    b
}

} // verus!

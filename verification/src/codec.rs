//! The canonical wire format of notes.
//!
//! Serialization writes a note's metadata and details, field by field, with
//! no padding; the note's id, nullifier and header are never written, and a
//! load always recomputes them, so a stored note can never drift out of
//! step with its own commitments. Every numeric field is little endian; the
//! two variable-length sequences (assets, inputs) and the script code carry
//! a 32-bit count in front.
//!
//! The format is specified twice over: `spec_ser_*` functions give the
//! exact byte sequence of each field, and `spec_parse_*` functions give the
//! exact result of reading one back at a position. The executable writer
//! and reader are verified against those functions, and the round-trip
//! lemmas prove that parsing a serialization recovers exactly what was
//! written.

use vstd::prelude::*;
use crate::is_felt;
use crate::word::Word;

verus! {

// SERIALIZATION SPECS: PRIMITIVES
// ------------------------------------------------------------------------

/// One byte.
pub open spec fn spec_ser_u8(x: u8) -> Seq<u8> {
    seq![x]
}

/// Four bytes, little endian.
pub open spec fn spec_ser_u32(x: u32) -> Seq<u8> {
    seq![
        (x & 0xff) as u8,
        ((x >> 8) & 0xff) as u8,
        ((x >> 16) & 0xff) as u8,
        ((x >> 24) & 0xff) as u8,
    ]
}

/// Eight bytes, little endian.
pub open spec fn spec_ser_u64(x: u64) -> Seq<u8> {
    seq![
        (x & 0xff) as u8,
        ((x >> 8) & 0xff) as u8,
        ((x >> 16) & 0xff) as u8,
        ((x >> 24) & 0xff) as u8,
        ((x >> 32) & 0xff) as u8,
        ((x >> 40) & 0xff) as u8,
        ((x >> 48) & 0xff) as u8,
        ((x >> 56) & 0xff) as u8,
    ]
}

/// A word: its four elements in order.
pub open spec fn spec_ser_word(w: Word) -> Seq<u8> {
    spec_ser_u64(w.0) + spec_ser_u64(w.1) + spec_ser_u64(w.2) + spec_ser_u64(w.3)
}

// PARSE SPECS: PRIMITIVES
// ------------------------------------------------------------------------

/// The value of the byte at a position, or nothing past the end.
pub open spec fn spec_parse_u8(s: Seq<u8>, i: int) -> Option<(u8, int)> {
    if 0 <= i && i + 1 <= s.len() {
        Some((s[i], i + 1))
    } else {
        None
    }
}

/// The little-endian 32-bit value at a position.
pub open spec fn spec_parse_u32(s: Seq<u8>, i: int) -> Option<(u32, int)> {
    if 0 <= i && i + 4 <= s.len() {
        Some(
            (
                (s[i] as u32) | (s[i + 1] as u32) << 8 | (s[i + 2] as u32) << 16 | (s[i + 3]
                    as u32) << 24,
                i + 4,
            ),
        )
    } else {
        None
    }
}

/// The little-endian 64-bit value at a position.
pub open spec fn spec_parse_u64(s: Seq<u8>, i: int) -> Option<(u64, int)> {
    if 0 <= i && i + 8 <= s.len() {
        Some(
            (
                (s[i] as u64) | (s[i + 1] as u64) << 8 | (s[i + 2] as u64) << 16 | (s[i + 3]
                    as u64) << 24 | (s[i + 4] as u64) << 32 | (s[i + 5] as u64) << 40 | (s[i + 6]
                    as u64) << 48 | (s[i + 7] as u64) << 56,
                i + 8,
            ),
        )
    } else {
        None
    }
}

/// The word at a position; a word parses only when all four elements are
/// canonical field elements.
pub open spec fn spec_parse_word(s: Seq<u8>, i: int) -> Option<(Word, int)> {
    match spec_parse_u64(s, i) {
        None => None,
        Some((a, j)) => match spec_parse_u64(s, j) {
            None => None,
            Some((b, k)) => match spec_parse_u64(s, k) {
                None => None,
                Some((c, l)) => match spec_parse_u64(s, l) {
                    None => None,
                    Some((d, m)) => {
                        let w = Word(a, b, c, d);
                        if w.wf() {
                            Some((w, m))
                        } else {
                            None
                        }
                    },
                },
            },
        },
    }
}

// ROUND-TRIP LEMMAS: PRIMITIVES
// ------------------------------------------------------------------------

/// Splitting a known subrange: when the bytes at `i` are `a + b`, the bytes
/// at `i` of `a`'s length are `a` and those after them are `b`.
pub proof fn lemma_subrange_split(s: Seq<u8>, i: int, a: Seq<u8>, b: Seq<u8>)
    requires
        0 <= i,
        i + a.len() + b.len() <= s.len(),
        s.subrange(i, i + a.len() + b.len()) == a + b,
    ensures
        s.subrange(i, i + a.len()) == a,
        s.subrange(i + a.len(), i + a.len() + b.len()) == b,
{
    let ab = s.subrange(i, i + a.len() + b.len());
    assert forall|k: int| 0 <= k < a.len() implies s[i + k] == a[k] by {
        assert(ab[k] == s[i + k]);
        assert((a + b)[k] == a[k]);
    }
    assert forall|k: int| 0 <= k < b.len() implies s[i + a.len() + k] == b[k] by {
        assert(ab[a.len() + k] == s[i + a.len() + k]);
        assert((a + b)[a.len() + k] == b[k]);
    }
    assert(s.subrange(i, i + a.len()) =~= a);
    assert(s.subrange(i + a.len(), i + a.len() + b.len()) =~= b);
}

/// Parsing an 8-bit serialization recovers the value.
pub proof fn lemma_parse_ser_u8(x: u8, s: Seq<u8>, i: int)
    requires
        0 <= i,
        i + 1 <= s.len(),
        s.subrange(i, i + 1) == spec_ser_u8(x),
    ensures
        spec_parse_u8(s, i) == Some((x, i + 1)),
{
    assert(s[i] == s.subrange(i, i + 1)[0]);
}

/// Parsing a 32-bit serialization recovers the value.
pub proof fn lemma_parse_ser_u32(x: u32, s: Seq<u8>, i: int)
    requires
        0 <= i,
        i + 4 <= s.len(),
        s.subrange(i, i + 4) == spec_ser_u32(x),
    ensures
        spec_parse_u32(s, i) == Some((x, i + 4)),
{
    let t = s.subrange(i, i + 4);
    assert(s[i] == t[0] && s[i + 1] == t[1] && s[i + 2] == t[2] && s[i + 3] == t[3]);
    assert(((x & 0xff) as u8 as u32) | (((x >> 8) & 0xff) as u8 as u32) << 8 | (((x >> 16)
        & 0xff) as u8 as u32) << 16 | (((x >> 24) & 0xff) as u8 as u32) << 24 == x)
        by (bit_vector);
}

/// Parsing a 64-bit serialization recovers the value.
pub proof fn lemma_parse_ser_u64(x: u64, s: Seq<u8>, i: int)
    requires
        0 <= i,
        i + 8 <= s.len(),
        s.subrange(i, i + 8) == spec_ser_u64(x),
    ensures
        spec_parse_u64(s, i) == Some((x, i + 8)),
{
    let t = s.subrange(i, i + 8);
    assert(s[i] == t[0] && s[i + 1] == t[1] && s[i + 2] == t[2] && s[i + 3] == t[3] && s[i + 4]
        == t[4] && s[i + 5] == t[5] && s[i + 6] == t[6] && s[i + 7] == t[7]);
    assert(((x & 0xff) as u8 as u64) | (((x >> 8) & 0xff) as u8 as u64) << 8 | (((x >> 16)
        & 0xff) as u8 as u64) << 16 | (((x >> 24) & 0xff) as u8 as u64) << 24 | (((x >> 32)
        & 0xff) as u8 as u64) << 32 | (((x >> 40) & 0xff) as u8 as u64) << 40 | (((x >> 48)
        & 0xff) as u8 as u64) << 48 | (((x >> 56) & 0xff) as u8 as u64) << 56 == x)
        by (bit_vector);
}

/// Parsing a word's serialization recovers the word, provided it is well
/// formed.
pub proof fn lemma_parse_ser_word(w: Word, s: Seq<u8>, i: int)
    requires
        0 <= i,
        i + 32 <= s.len(),
        s.subrange(i, i + 32) == spec_ser_word(w),
        w.wf(),
    ensures
        spec_parse_word(s, i) == Some((w, i + 32)),
{
    let s0 = spec_ser_u64(w.0);
    let s1 = spec_ser_u64(w.1);
    let s2 = spec_ser_u64(w.2);
    let s3 = spec_ser_u64(w.3);
    assert(s.subrange(i, i + 32) == s0 + (s1 + s2 + s3)) by {
        assert(s0 + (s1 + s2 + s3) =~= spec_ser_word(w));
    }
    lemma_subrange_split(s, i, s0, s1 + s2 + s3);
    assert(s.subrange(i + 8, i + 32) == s1 + (s2 + s3)) by {
        assert(s1 + (s2 + s3) =~= s1 + s2 + s3);
    }
    lemma_subrange_split(s, i + 8, s1, s2 + s3);
    lemma_subrange_split(s, i + 16, s2, s3);
    lemma_parse_ser_u64(w.0, s, i);
    lemma_parse_ser_u64(w.1, s, i + 8);
    lemma_parse_ser_u64(w.2, s, i + 16);
    lemma_parse_ser_u64(w.3, s, i + 24);
}

// EXECUTABLE WRITERS: PRIMITIVES
// ------------------------------------------------------------------------

/// Appends one byte.
pub fn write_u8(out: &mut Vec<u8>, x: u8)
    ensures
        final(out)@ == old(out)@ + spec_ser_u8(x),
{
    out.push(x);
    assert(out@ =~= old(out)@ + spec_ser_u8(x));
}

/// Appends four bytes, little endian.
pub fn write_u32(out: &mut Vec<u8>, x: u32)
    ensures
        final(out)@ == old(out)@ + spec_ser_u32(x),
{
    out.push((x & 0xff) as u8);
    out.push(((x >> 8) & 0xff) as u8);
    out.push(((x >> 16) & 0xff) as u8);
    out.push(((x >> 24) & 0xff) as u8);
    assert(out@ =~= old(out)@ + spec_ser_u32(x));
}

/// Appends eight bytes, little endian.
pub fn write_u64(out: &mut Vec<u8>, x: u64)
    ensures
        final(out)@ == old(out)@ + spec_ser_u64(x),
{
    out.push((x & 0xff) as u8);
    out.push(((x >> 8) & 0xff) as u8);
    out.push(((x >> 16) & 0xff) as u8);
    out.push(((x >> 24) & 0xff) as u8);
    out.push(((x >> 32) & 0xff) as u8);
    out.push(((x >> 40) & 0xff) as u8);
    out.push(((x >> 48) & 0xff) as u8);
    out.push(((x >> 56) & 0xff) as u8);
    assert(out@ =~= old(out)@ + spec_ser_u64(x));
}

/// Appends a word.
pub fn write_word(out: &mut Vec<u8>, w: &Word)
    ensures
        final(out)@ == old(out)@ + spec_ser_word(*w),
{
    write_u64(out, w.0);
    write_u64(out, w.1);
    write_u64(out, w.2);
    write_u64(out, w.3);
    assert(out@ =~= old(out)@ + spec_ser_word(*w));
}

// EXECUTABLE READERS: PRIMITIVES
// ------------------------------------------------------------------------

/// Reads one byte at a position.
pub fn read_u8(bytes: &Vec<u8>, pos: usize) -> (r: Option<(u8, usize)>)
    ensures
        r matches Some((x, p)) ==> spec_parse_u8(bytes@, pos as int) == Some((x, p as int)),
        r is None ==> spec_parse_u8(bytes@, pos as int) is None,
{
    if pos < bytes.len() {
        Some((bytes[pos], pos + 1))
    } else {
        None
    }
}

/// Reads a little-endian 32-bit value at a position.
pub fn read_u32(bytes: &Vec<u8>, pos: usize) -> (r: Option<(u32, usize)>)
    ensures
        r matches Some((x, p)) ==> spec_parse_u32(bytes@, pos as int) == Some((x, p as int)),
        r is None ==> spec_parse_u32(bytes@, pos as int) is None,
{
    if pos <= bytes.len() && bytes.len() - pos >= 4 {
        let x = (bytes[pos] as u32) | (bytes[pos + 1] as u32) << 8 | (bytes[pos + 2] as u32) << 16
            | (bytes[pos + 3] as u32) << 24;
        Some((x, pos + 4))
    } else {
        None
    }
}

/// Reads a little-endian 64-bit value at a position.
pub fn read_u64(bytes: &Vec<u8>, pos: usize) -> (r: Option<(u64, usize)>)
    ensures
        r matches Some((x, p)) ==> spec_parse_u64(bytes@, pos as int) == Some((x, p as int)),
        r is None ==> spec_parse_u64(bytes@, pos as int) is None,
{
    if pos <= bytes.len() && bytes.len() - pos >= 8 {
        let x = (bytes[pos] as u64) | (bytes[pos + 1] as u64) << 8 | (bytes[pos + 2] as u64) << 16
            | (bytes[pos + 3] as u64) << 24 | (bytes[pos + 4] as u64) << 32 | (bytes[pos + 5]
            as u64) << 40 | (bytes[pos + 6] as u64) << 48 | (bytes[pos + 7] as u64) << 56;
        Some((x, pos + 8))
    } else {
        None
    }
}

/// Reads a word at a position, refusing non-canonical elements.
pub fn read_word(bytes: &Vec<u8>, pos: usize) -> (r: Option<(Word, usize)>)
    ensures
        r matches Some((w, p)) ==> spec_parse_word(bytes@, pos as int) == Some((w, p as int))
            && w.wf(),
        r is None ==> spec_parse_word(bytes@, pos as int) is None,
{
    let (a, p1) = match read_u64(bytes, pos) {
        Some(v) => v,
        None => {
            return None;
        },
    };
    let (b, p2) = match read_u64(bytes, p1) {
        Some(v) => v,
        None => {
            return None;
        },
    };
    let (c, p3) = match read_u64(bytes, p2) {
        Some(v) => v,
        None => {
            return None;
        },
    };
    let (d, p4) = match read_u64(bytes, p3) {
        Some(v) => v,
        None => {
            return None;
        },
    };
    if a < crate::FIELD_MODULUS && b < crate::FIELD_MODULUS && c < crate::FIELD_MODULUS && d
        < crate::FIELD_MODULUS {
        Some((Word(a, b, c, d), p4))
    } else {
        None
    }
}

// SEQUENCES
// ------------------------------------------------------------------------

/// A sequence of 64-bit values, each little endian, without a count.
pub open spec fn spec_ser_u64_seq(v: Seq<u64>) -> Seq<u8>
    decreases v.len(),
{
    if v.len() == 0 {
        Seq::<u8>::empty()
    } else {
        spec_ser_u64(v[0]) + spec_ser_u64_seq(v.drop_first())
    }
}

/// A sequence of asset words laid end to end, without a count.
pub open spec fn spec_ser_asset_seq(v: Seq<crate::assets::Asset>) -> Seq<u8>
    decreases v.len(),
{
    if v.len() == 0 {
        Seq::<u8>::empty()
    } else {
        spec_ser_word(v[0].0) + spec_ser_asset_seq(v.drop_first())
    }
}

/// The length of a serialized 64-bit sequence.
pub proof fn lemma_ser_u64_seq_len(v: Seq<u64>)
    ensures
        spec_ser_u64_seq(v).len() == 8 * v.len(),
    decreases v.len(),
{
    if v.len() > 0 {
        lemma_ser_u64_seq_len(v.drop_first());
    }
}

/// The length of a serialized asset sequence.
pub proof fn lemma_ser_asset_seq_len(v: Seq<crate::assets::Asset>)
    ensures
        spec_ser_asset_seq(v).len() == 32 * v.len(),
    decreases v.len(),
{
    if v.len() > 0 {
        lemma_ser_asset_seq_len(v.drop_first());
    }
}

/// The given number of 64-bit values at a position.
pub open spec fn spec_parse_u64_seq(s: Seq<u8>, i: int, n: nat) -> Option<(Seq<u64>, int)>
    decreases n,
{
    if n == 0 {
        Some((Seq::<u64>::empty(), i))
    } else {
        match spec_parse_u64(s, i) {
            None => None,
            Some((x, j)) => match spec_parse_u64_seq(s, j, (n - 1) as nat) {
                None => None,
                Some((rest, k)) => Some((seq![x] + rest, k)),
            },
        }
    }
}

/// The given number of asset words at a position; each word must be made of
/// canonical field elements.
pub open spec fn spec_parse_asset_seq(s: Seq<u8>, i: int, n: nat) -> Option<
    (Seq<crate::assets::Asset>, int),
>
    decreases n,
{
    if n == 0 {
        Some((Seq::<crate::assets::Asset>::empty(), i))
    } else {
        match spec_parse_word(s, i) {
            None => None,
            Some((w, j)) => match spec_parse_asset_seq(s, j, (n - 1) as nat) {
                None => None,
                Some((rest, k)) => Some((seq![crate::assets::Asset(w)] + rest, k)),
            },
        }
    }
}

/// A run of raw bytes of a given length at a position.
pub open spec fn spec_parse_bytes(s: Seq<u8>, i: int, n: nat) -> Option<(Seq<u8>, int)> {
    if 0 <= i && i + n <= s.len() {
        Some((s.subrange(i, i + n), i + n))
    } else {
        None
    }
}

/// Parsing a serialized 64-bit sequence recovers the values.
pub proof fn lemma_parse_ser_u64_seq(v: Seq<u64>, s: Seq<u8>, i: int)
    requires
        0 <= i,
        i + 8 * v.len() <= s.len(),
        s.subrange(i, i + 8 * v.len()) == spec_ser_u64_seq(v),
    ensures
        spec_parse_u64_seq(s, i, v.len()) == Some((v, i + 8 * v.len())),
    decreases v.len(),
{
    if v.len() == 0 {
        assert(spec_parse_u64_seq(s, i, 0) == Some((Seq::<u64>::empty(), i)));
        assert(v =~= Seq::<u64>::empty());
    } else {
        let rest = v.drop_first();
        lemma_ser_u64_seq_len(rest);
        assert(s.subrange(i, i + 8 + 8 * rest.len()) == spec_ser_u64(v[0])
            + spec_ser_u64_seq(rest));
        lemma_subrange_split(s, i, spec_ser_u64(v[0]), spec_ser_u64_seq(rest));
        lemma_parse_ser_u64(v[0], s, i);
        lemma_parse_ser_u64_seq(rest, s, i + 8);
        assert(seq![v[0]] + rest =~= v);
    }
}

/// Parsing a serialized asset sequence recovers the assets, provided each
/// is well formed.
pub proof fn lemma_parse_ser_asset_seq(v: Seq<crate::assets::Asset>, s: Seq<u8>, i: int)
    requires
        0 <= i,
        i + 32 * v.len() <= s.len(),
        s.subrange(i, i + 32 * v.len()) == spec_ser_asset_seq(v),
        forall|k: int| 0 <= k < v.len() ==> (#[trigger] v[k]).wf(),
    ensures
        spec_parse_asset_seq(s, i, v.len()) == Some((v, i + 32 * v.len())),
    decreases v.len(),
{
    if v.len() == 0 {
        assert(v =~= Seq::<crate::assets::Asset>::empty());
    } else {
        let rest = v.drop_first();
        lemma_ser_asset_seq_len(rest);
        assert(s.subrange(i, i + 32 + 32 * rest.len()) == spec_ser_word(v[0].0)
            + spec_ser_asset_seq(rest));
        lemma_subrange_split(s, i, spec_ser_word(v[0].0), spec_ser_asset_seq(rest));
        lemma_parse_ser_word(v[0].0, s, i);
        lemma_parse_ser_asset_seq(rest, s, i + 32);
        assert(crate::assets::Asset(v[0].0) == v[0]);
        assert(seq![v[0]] + rest =~= v);
    }
}

/// What a successful sequence parse guarantees: the count of values and
/// the end position.
pub proof fn lemma_parse_u64_seq_shape(s: Seq<u8>, i: int, n: nat)
    ensures
        spec_parse_u64_seq(s, i, n) matches Some((v, k)) ==> v.len() == n && k == i + 8 * n,
    decreases n,
{
    if n > 0 {
        match spec_parse_u64(s, i) {
            None => {},
            Some((x, j)) => {
                lemma_parse_u64_seq_shape(s, j, (n - 1) as nat);
            },
        }
    }
}

/// What a successful asset-sequence parse guarantees: the count, the end
/// position, and well-formedness of every asset.
pub proof fn lemma_parse_asset_seq_shape(s: Seq<u8>, i: int, n: nat)
    ensures
        spec_parse_asset_seq(s, i, n) matches Some((v, k)) ==> v.len() == n && k == i + 32 * n
            && forall|q: int| 0 <= q < v.len() ==> (#[trigger] v[q]).wf(),
    decreases n,
{
    if n > 0 {
        match spec_parse_word(s, i) {
            None => {},
            Some((w, j)) => {
                lemma_parse_asset_seq_shape(s, j, (n - 1) as nat);
            },
        }
    }
}

// EXECUTABLE WRITERS AND READERS: SEQUENCES
// ------------------------------------------------------------------------

/// Appends a sequence of 64-bit values, from the given index on.
pub fn write_u64_seq(out: &mut Vec<u8>, v: &Vec<u64>, from: usize)
    requires
        from <= v@.len(),
    ensures
        final(out)@ == old(out)@ + spec_ser_u64_seq(v@.skip(from as int)),
    decreases v@.len() - from,
{
    if from < v.len() {
        write_u64(out, v[from]);
        write_u64_seq(out, v, from + 1);
        proof {
            let t = v@.skip(from as int);
            assert(t[0] == v@[from as int]);
            assert(t.drop_first() =~= v@.skip(from as int + 1));
            assert(out@ =~= old(out)@ + spec_ser_u64_seq(t));
        }
    } else {
        proof {
            assert(v@.skip(from as int) =~= Seq::<u64>::empty());
            assert(out@ =~= old(out)@ + spec_ser_u64_seq(v@.skip(from as int)));
        }
    }
}

/// Appends a sequence of asset words, from the given index on.
pub fn write_asset_seq(out: &mut Vec<u8>, v: &Vec<crate::assets::Asset>, from: usize)
    requires
        from <= v@.len(),
    ensures
        final(out)@ == old(out)@ + spec_ser_asset_seq(v@.skip(from as int)),
    decreases v@.len() - from,
{
    if from < v.len() {
        let a = v[from];
        write_word(out, &a.0);
        write_asset_seq(out, v, from + 1);
        proof {
            let t = v@.skip(from as int);
            assert(t[0] == v@[from as int]);
            assert(t.drop_first() =~= v@.skip(from as int + 1));
            assert(out@ =~= old(out)@ + spec_ser_asset_seq(t));
        }
    } else {
        proof {
            assert(v@.skip(from as int) =~= Seq::<crate::assets::Asset>::empty());
            assert(out@ =~= old(out)@ + spec_ser_asset_seq(v@.skip(from as int)));
        }
    }
}

/// Appends raw bytes.
pub fn write_bytes(out: &mut Vec<u8>, v: &Vec<u8>)
    ensures
        final(out)@ == old(out)@ + v@,
{
    let n = v.len();
    let mut i: usize = 0;
    while i < n
        invariant
            n == v@.len(),
            i <= n,
            out@ == old(out)@ + v@.take(i as int),
        decreases n - i,
    {
        out.push(v[i]);
        proof {
            assert(out@ =~= old(out)@ + v@.take(i + 1));
        }
        i += 1;
    }
    proof {
        assert(v@.take(n as int) =~= v@);
    }
}

/// Reads the given number of 64-bit values at a position.
pub fn read_u64_seq(bytes: &Vec<u8>, pos: usize, count: usize) -> (r: Option<(Vec<u64>, usize)>)
    ensures
        r matches Some((v, p)) ==> spec_parse_u64_seq(bytes@, pos as int, count as nat) == Some(
            (v@, p as int),
        ),
        r is None ==> spec_parse_u64_seq(bytes@, pos as int, count as nat) is None,
    decreases count,
{
    if count == 0 {
        let v: Vec<u64> = Vec::new();
        assert(v@ =~= Seq::<u64>::empty());
        Some((v, pos))
    } else {
        match read_u64(bytes, pos) {
            None => None,
            Some((x, p1)) => match read_u64_seq(bytes, p1, count - 1) {
                None => None,
                Some((mut rest, p2)) => {
                    let ghost rv = rest@;
                    rest.insert(0, x);
                    assert(rest@ =~= seq![x] + rv);
                    Some((rest, p2))
                },
            },
        }
    }
}

/// Reads the given number of asset words at a position.
pub fn read_asset_seq(bytes: &Vec<u8>, pos: usize, count: usize) -> (r: Option<
    (Vec<crate::assets::Asset>, usize),
>)
    ensures
        r matches Some((v, p)) ==> spec_parse_asset_seq(bytes@, pos as int, count as nat) == Some(
            (v@, p as int),
        ),
        r is None ==> spec_parse_asset_seq(bytes@, pos as int, count as nat) is None,
    decreases count,
{
    if count == 0 {
        let v: Vec<crate::assets::Asset> = Vec::new();
        assert(v@ =~= Seq::<crate::assets::Asset>::empty());
        Some((v, pos))
    } else {
        match read_word(bytes, pos) {
            None => None,
            Some((w, p1)) => match read_asset_seq(bytes, p1, count - 1) {
                None => None,
                Some((mut rest, p2)) => {
                    let ghost rv = rest@;
                    rest.insert(0, crate::assets::Asset(w));
                    assert(rest@ =~= seq![crate::assets::Asset(w)] + rv);
                    Some((rest, p2))
                },
            },
        }
    }
}

/// Reads a run of raw bytes of the given length at a position.
pub fn read_bytes(bytes: &Vec<u8>, pos: usize, count: usize) -> (r: Option<(Vec<u8>, usize)>)
    ensures
        r matches Some((v, p)) ==> spec_parse_bytes(bytes@, pos as int, count as nat) == Some(
            (v@, p as int),
        ),
        r is None ==> spec_parse_bytes(bytes@, pos as int, count as nat) is None,
{
    if pos <= bytes.len() && bytes.len() - pos >= count {
        let total = bytes.len();
        let mut v: Vec<u8> = Vec::new();
        let mut i: usize = 0;
        while i < count
            invariant
                total == bytes@.len(),
                pos + count <= total,
                i <= count,
                v@ == bytes@.subrange(pos as int, pos + i),
            decreases count - i,
        {
            v.push(bytes[pos + i]);
            proof {
                assert(v@ =~= bytes@.subrange(pos as int, pos + i + 1));
            }
            i += 1;
        }
        Some((v, pos + count))
    } else {
        None
    }
}

// COMPOSITES: SERIALIZATION AND PARSE SPECS
// ------------------------------------------------------------------------

/// A note's metadata: sender, note type discriminant, tag, auxiliary
/// element.
pub open spec fn spec_ser_metadata(m: crate::metadata::NoteMetadata) -> Seq<u8> {
    spec_ser_u64(m.sender.0) + spec_ser_u8(m.note_type.spec_to_wire()) + spec_ser_u32(m.tag.0)
        + spec_ser_u64(m.aux)
}

/// The metadata at a position. Parsing validates what construction
/// validates: the sender and the auxiliary value must be canonical and the
/// tag must be compatible with the note type.
pub open spec fn spec_parse_metadata(s: Seq<u8>, i: int) -> Option<
    (crate::metadata::NoteMetadata, int),
> {
    match spec_parse_u64(s, i) {
        None => None,
        Some((sender, j)) => if !is_felt(sender) {
            None
        } else {
            match spec_parse_u8(s, j) {
                None => None,
                Some((tb, k)) => match crate::note_type::NoteType::spec_from_wire(tb) {
                    None => None,
                    Some(nt) => match spec_parse_u32(s, k) {
                        None => None,
                        Some((tag, l)) => match spec_parse_u64(s, l) {
                            None => None,
                            Some((aux, m2)) => if is_felt(aux) && (crate::note_tag::NoteTag(
                                tag,
                            )).spec_is_compatible(nt) {
                                Some(
                                    (
                                        crate::metadata::NoteMetadata {
                                            sender: crate::account::AccountId(sender),
                                            note_type: nt,
                                            tag: crate::note_tag::NoteTag(tag),
                                            aux,
                                        },
                                        m2,
                                    ),
                                )
                            } else {
                                None
                            },
                        },
                    },
                },
            }
        },
    }
}

/// A script: its root word, then its code length, then the code.
pub open spec fn spec_ser_script(root: Word, code: Seq<u8>) -> Seq<u8> {
    spec_ser_word(root) + spec_ser_u32(code.len() as u32) + code
}

/// The script at a position.
pub open spec fn spec_parse_script(s: Seq<u8>, i: int) -> Option<((Word, Seq<u8>), int)> {
    match spec_parse_word(s, i) {
        None => None,
        Some((root, j)) => match spec_parse_u32(s, j) {
            None => None,
            Some((n, k)) => match spec_parse_bytes(s, k, n as nat) {
                None => None,
                Some((code, l)) => Some(((root, code), l)),
            },
        },
    }
}

/// Note inputs: their count, then the values.
pub open spec fn spec_ser_inputs(values: Seq<u64>) -> Seq<u8> {
    spec_ser_u32(values.len() as u32) + spec_ser_u64_seq(values)
}

/// The inputs at a position. Parsing validates the protocol bound and
/// canonicity, as construction does.
pub open spec fn spec_parse_inputs(s: Seq<u8>, i: int) -> Option<(Seq<u64>, int)> {
    match spec_parse_u32(s, i) {
        None => None,
        Some((n, j)) => if n > crate::inputs::MAX_INPUTS_PER_NOTE as u32 {
            None
        } else {
            match spec_parse_u64_seq(s, j, n as nat) {
                None => None,
                Some((values, k)) => if forall|q: int|
                    0 <= q < values.len() ==> is_felt(#[trigger] values[q]) {
                    Some((values, k))
                } else {
                    None
                },
            }
        },
    }
}

/// The asset container: its count, then the asset words.
pub open spec fn spec_ser_assets(assets: Seq<crate::assets::Asset>) -> Seq<u8> {
    spec_ser_u32(assets.len() as u32) + spec_ser_asset_seq(assets)
}

/// The assets at a position. Parsing validates the protocol bound,
/// canonicity and distinctness, as construction does.
pub open spec fn spec_parse_assets(s: Seq<u8>, i: int) -> Option<
    (Seq<crate::assets::Asset>, int),
> {
    match spec_parse_u32(s, i) {
        None => None,
        Some((n, j)) => if n > crate::assets::MAX_ASSETS_PER_NOTE as u32 {
            None
        } else {
            match spec_parse_asset_seq(s, j, n as nat) {
                None => None,
                Some((assets, k)) => if crate::assets::NoteAssets::spec_distinct(assets) {
                    Some((assets, k))
                } else {
                    None
                },
            }
        },
    }
}

/// A recipient: serial number, script, inputs.
pub open spec fn spec_ser_recipient(
    serial: Word,
    root: Word,
    code: Seq<u8>,
    values: Seq<u64>,
) -> Seq<u8> {
    spec_ser_word(serial) + spec_ser_script(root, code) + spec_ser_inputs(values)
}

/// The recipient at a position.
pub open spec fn spec_parse_recipient(s: Seq<u8>, i: int) -> Option<
    ((Word, Word, Seq<u8>, Seq<u64>), int),
> {
    match spec_parse_word(s, i) {
        None => None,
        Some((serial, j)) => match spec_parse_script(s, j) {
            None => None,
            Some(((root, code), k)) => match spec_parse_inputs(s, k) {
                None => None,
                Some((values, l)) => Some(((serial, root, code, values), l)),
            },
        },
    }
}

/// A whole note: metadata, then details (assets, then recipient). The id,
/// the nullifier and the header are never part of the wire format.
pub open spec fn spec_ser_note_parts(
    m: crate::metadata::NoteMetadata,
    assets: Seq<crate::assets::Asset>,
    serial: Word,
    root: Word,
    code: Seq<u8>,
    values: Seq<u64>,
) -> Seq<u8> {
    spec_ser_metadata(m) + spec_ser_assets(assets) + spec_ser_recipient(serial, root, code, values)
}

/// The serialization of a note value.
pub open spec fn spec_ser_of_note(n: crate::note::Note) -> Seq<u8> {
    spec_ser_note_parts(
        n.spec_metadata(),
        n.spec_details().assets.assets@,
        n.spec_details().recipient.serial_num,
        n.spec_details().recipient.script.root,
        n.spec_details().recipient.script.code@,
        n.spec_details().recipient.inputs.values@,
    )
}

/// The note a whole byte string holds, if any: the parts parse in order
/// and nothing is left over.
pub open spec fn spec_parse_note(s: Seq<u8>) -> Option<
    (
        crate::metadata::NoteMetadata,
        Seq<crate::assets::Asset>,
        Word,
        Word,
        Seq<u8>,
        Seq<u64>,
    ),
> {
    match spec_parse_metadata(s, 0) {
        None => None,
        Some((m, i)) => match spec_parse_assets(s, i) {
            None => None,
            Some((assets, j)) => match spec_parse_recipient(s, j) {
                None => None,
                Some(((serial, root, code, values), k)) => if k == s.len() {
                    Some((m, assets, serial, root, code, values))
                } else {
                    None
                },
            },
        },
    }
}

// COMPOSITES: ROUND-TRIP LEMMAS
// ------------------------------------------------------------------------

/// Parsing serialized metadata recovers it, provided it is well formed.
pub proof fn lemma_parse_ser_metadata(m: crate::metadata::NoteMetadata, s: Seq<u8>, i: int)
    requires
        0 <= i,
        i + 21 <= s.len(),
        s.subrange(i, i + 21) == spec_ser_metadata(m),
        m.wf(),
    ensures
        spec_parse_metadata(s, i) == Some((m, i + 21)),
{
    let a = spec_ser_u64(m.sender.0);
    let b = spec_ser_u8(m.note_type.spec_to_wire());
    let c = spec_ser_u32(m.tag.0);
    let d = spec_ser_u64(m.aux);
    assert(s.subrange(i, i + 21) == a + (b + c + d)) by {
        assert(a + (b + c + d) =~= spec_ser_metadata(m));
    }
    lemma_subrange_split(s, i, a, b + c + d);
    assert(s.subrange(i + 8, i + 21) == b + (c + d)) by {
        assert(b + (c + d) =~= b + c + d);
    }
    lemma_subrange_split(s, i + 8, b, c + d);
    lemma_subrange_split(s, i + 9, c, d);
    lemma_parse_ser_u64(m.sender.0, s, i);
    lemma_parse_ser_u8(m.note_type.spec_to_wire(), s, i + 8);
    lemma_parse_ser_u32(m.tag.0, s, i + 9);
    lemma_parse_ser_u64(m.aux, s, i + 13);
    assert(crate::note_type::NoteType::spec_from_wire(m.note_type.spec_to_wire()) == Some(
        m.note_type,
    ));
    assert(crate::note_tag::NoteTag(m.tag.0) == m.tag);
    assert(crate::account::AccountId(m.sender.0) == m.sender);
}

/// Parsing a serialized script recovers it, provided it is well formed.
pub proof fn lemma_parse_ser_script(root: Word, code: Seq<u8>, s: Seq<u8>, i: int)
    requires
        0 <= i,
        i + 36 + code.len() <= s.len(),
        s.subrange(i, i + 36 + code.len()) == spec_ser_script(root, code),
        root.wf(),
        code.len() < 0x1_0000_0000,
    ensures
        spec_parse_script(s, i) == Some(((root, code), i + 36 + code.len())),
{
    let a = spec_ser_word(root);
    let b = spec_ser_u32(code.len() as u32);
    assert(a.len() == 32);
    assert(s.subrange(i, i + 36 + code.len()) == a + (b + code)) by {
        assert(a + (b + code) =~= spec_ser_script(root, code));
    }
    lemma_subrange_split(s, i, a, b + code);
    lemma_subrange_split(s, i + 32, b, code);
    lemma_parse_ser_word(root, s, i);
    lemma_parse_ser_u32(code.len() as u32, s, i + 32);
    assert(spec_parse_bytes(s, i + 36, code.len() as u32 as nat) == Some(
        (code, i + 36 + code.len()),
    )) by {
        assert(code.len() as u32 as nat == code.len());
        assert(s.subrange(i + 36, i + 36 + code.len()) == code);
    }
}

/// Parsing serialized inputs recovers them, provided they are within the
/// bound and canonical.
pub proof fn lemma_parse_ser_inputs(values: Seq<u64>, s: Seq<u8>, i: int)
    requires
        0 <= i,
        i + 4 + 8 * values.len() <= s.len(),
        s.subrange(i, i + 4 + 8 * values.len()) == spec_ser_inputs(values),
        values.len() <= crate::inputs::MAX_INPUTS_PER_NOTE,
        forall|q: int| 0 <= q < values.len() ==> is_felt(#[trigger] values[q]),
    ensures
        spec_parse_inputs(s, i) == Some((values, i + 4 + 8 * values.len())),
{
    let a = spec_ser_u32(values.len() as u32);
    let b = spec_ser_u64_seq(values);
    lemma_ser_u64_seq_len(values);
    lemma_subrange_split(s, i, a, b);
    lemma_parse_ser_u32(values.len() as u32, s, i);
    lemma_parse_ser_u64_seq(values, s, i + 4);
    assert(values.len() as u32 as nat == values.len());
}

/// Parsing a serialized asset container recovers it, provided it is well
/// formed.
pub proof fn lemma_parse_ser_assets(assets: Seq<crate::assets::Asset>, s: Seq<u8>, i: int)
    requires
        0 <= i,
        i + 4 + 32 * assets.len() <= s.len(),
        s.subrange(i, i + 4 + 32 * assets.len()) == spec_ser_assets(assets),
        assets.len() <= crate::assets::MAX_ASSETS_PER_NOTE,
        forall|k: int| 0 <= k < assets.len() ==> (#[trigger] assets[k]).wf(),
        crate::assets::NoteAssets::spec_distinct(assets),
    ensures
        spec_parse_assets(s, i) == Some((assets, i + 4 + 32 * assets.len())),
{
    let a = spec_ser_u32(assets.len() as u32);
    let b = spec_ser_asset_seq(assets);
    lemma_ser_asset_seq_len(assets);
    lemma_subrange_split(s, i, a, b);
    lemma_parse_ser_u32(assets.len() as u32, s, i);
    lemma_parse_ser_asset_seq(assets, s, i + 4);
    assert(assets.len() as u32 as nat == assets.len());
}

/// Parsing a serialized recipient recovers it, provided its parts are well
/// formed.
pub proof fn lemma_parse_ser_recipient(
    serial: Word,
    root: Word,
    code: Seq<u8>,
    values: Seq<u64>,
    s: Seq<u8>,
    i: int,
)
    requires
        0 <= i,
        i + 72 + code.len() + 8 * values.len() <= s.len(),
        s.subrange(i, i + 72 + code.len() + 8 * values.len()) == spec_ser_recipient(
            serial,
            root,
            code,
            values,
        ),
        serial.wf(),
        root.wf(),
        code.len() < 0x1_0000_0000,
        values.len() <= crate::inputs::MAX_INPUTS_PER_NOTE,
        forall|q: int| 0 <= q < values.len() ==> is_felt(#[trigger] values[q]),
    ensures
        spec_parse_recipient(s, i) == Some(
            ((serial, root, code, values), i + 72 + code.len() + 8 * values.len()),
        ),
{
    let a = spec_ser_word(serial);
    let b = spec_ser_script(root, code);
    let c = spec_ser_inputs(values);
    lemma_ser_u64_seq_len(values);
    assert(b.len() == 36 + code.len());
    assert(c.len() == 4 + 8 * values.len());
    assert(s.subrange(i, i + 72 + code.len() + 8 * values.len()) == a + (b + c)) by {
        assert(a + (b + c) =~= spec_ser_recipient(serial, root, code, values));
    }
    lemma_subrange_split(s, i, a, b + c);
    lemma_subrange_split(s, i + 32, b, c);
    lemma_parse_ser_word(serial, s, i);
    lemma_parse_ser_script(root, code, s, i + 32);
    lemma_parse_ser_inputs(values, s, i + 68 + code.len());
}

/// The round trip of the wire format: parsing the serialization of any
/// well-formed note recovers exactly the note's metadata, assets, serial
/// number, script and inputs, and consumes the whole byte string. Together
/// with the writer's and reader's contracts this gives
/// `read(write(n)) == n` for every well-formed note, with the id and the
/// nullifier recomputed on load and therefore equal as well.
#[verifier::rlimit(60)]
pub proof fn lemma_note_round_trip(n: crate::note::Note)
    requires
        n.wf(),
    ensures
        spec_parse_note(spec_ser_of_note(n)) == Some(
            (
                n.spec_metadata(),
                n.spec_details().assets.assets@,
                n.spec_details().recipient.serial_num,
                n.spec_details().recipient.script.root,
                n.spec_details().recipient.script.code@,
                n.spec_details().recipient.inputs.values@,
            ),
        ),
{
    let m = n.spec_metadata();
    let assets = n.spec_details().assets.assets@;
    let serial = n.spec_details().recipient.serial_num;
    let root = n.spec_details().recipient.script.root;
    let code = n.spec_details().recipient.script.code@;
    let values = n.spec_details().recipient.inputs.values@;
    let s = spec_ser_of_note(n);
    let a = spec_ser_metadata(m);
    let b = spec_ser_assets(assets);
    let c = spec_ser_recipient(serial, root, code, values);
    lemma_ser_asset_seq_len(assets);
    lemma_ser_u64_seq_len(values);
    assert(a.len() == 21);
    assert(b.len() == 4 + 32 * assets.len());
    assert(c.len() == 72 + code.len() + 8 * values.len());
    assert(s.subrange(0, s.len() as int) =~= s);
    assert(s.subrange(0, (a.len() + (b.len() + c.len())) as int) == a + (b + c)) by {
        assert(a + (b + c) =~= s);
    }
    lemma_subrange_split(s, 0, a, b + c);
    lemma_subrange_split(s, a.len() as int, b, c);
    lemma_parse_ser_metadata(m, s, 0);
    lemma_parse_ser_assets(assets, s, 21);
    lemma_parse_ser_recipient(serial, root, code, values, s, (25 + 32 * assets.len()) as int);
}

// EXECUTABLE WRITERS AND READERS: COMPOSITES
// ------------------------------------------------------------------------

/// Appends a note's metadata.
pub fn write_metadata(out: &mut Vec<u8>, m: &crate::metadata::NoteMetadata)
    ensures
        final(out)@ == old(out)@ + spec_ser_metadata(*m),
{
    write_u64(out, m.sender.0);
    write_u8(out, m.note_type.to_wire());
    write_u32(out, m.tag.0);
    write_u64(out, m.aux);
    assert(out@ =~= old(out)@ + spec_ser_metadata(*m));
}

/// Appends a script.
pub fn write_script(out: &mut Vec<u8>, sc: &crate::script::NoteScript)
    requires
        sc.wf(),
    ensures
        final(out)@ == old(out)@ + spec_ser_script(sc.root, sc.code@),
{
    write_word(out, &sc.root);
    write_u32(out, sc.code.len() as u32);
    write_bytes(out, &sc.code);
    assert(out@ =~= old(out)@ + spec_ser_script(sc.root, sc.code@));
}

/// Appends note inputs.
pub fn write_inputs(out: &mut Vec<u8>, inputs: &crate::inputs::NoteInputs)
    requires
        inputs.wf(),
    ensures
        final(out)@ == old(out)@ + spec_ser_inputs(inputs.values@),
{
    write_u32(out, inputs.values.len() as u32);
    write_u64_seq(out, &inputs.values, 0);
    proof {
        assert(inputs.values@.skip(0) =~= inputs.values@);
        assert(out@ =~= old(out)@ + spec_ser_inputs(inputs.values@));
    }
}

/// Appends an asset container.
pub fn write_assets(out: &mut Vec<u8>, assets: &crate::assets::NoteAssets)
    requires
        assets.wf(),
    ensures
        final(out)@ == old(out)@ + spec_ser_assets(assets.assets@),
{
    write_u32(out, assets.assets.len() as u32);
    write_asset_seq(out, &assets.assets, 0);
    proof {
        assert(assets.assets@.skip(0) =~= assets.assets@);
        assert(out@ =~= old(out)@ + spec_ser_assets(assets.assets@));
    }
}

/// Appends a recipient.
pub fn write_recipient(out: &mut Vec<u8>, r: &crate::recipient::NoteRecipient)
    requires
        r.wf(),
    ensures
        final(out)@ == old(out)@ + spec_ser_recipient(
            r.serial_num,
            r.script.root,
            r.script.code@,
            r.inputs.values@,
        ),
{
    write_word(out, &r.serial_num);
    write_script(out, &r.script);
    write_inputs(out, &r.inputs);
    assert(out@ =~= old(out)@ + spec_ser_recipient(
        r.serial_num,
        r.script.root,
        r.script.code@,
        r.inputs.values@,
    ));
}

/// Serializes a note into its canonical wire format: metadata, then
/// details. The id, the nullifier and the header are not written; a load
/// recomputes them.
pub fn note_to_bytes(n: &crate::note::Note) -> (r: Vec<u8>)
    requires
        n.wf(),
    ensures
        r@ == spec_ser_of_note(*n),
{
    let mut out: Vec<u8> = Vec::new();
    write_metadata(&mut out, n.metadata());
    write_assets(&mut out, n.assets());
    write_recipient(&mut out, n.recipient());
    assert(out@ =~= spec_ser_of_note(*n));
    out
}

/// Reads a note's metadata at a position.
pub fn read_metadata(bytes: &Vec<u8>, pos: usize) -> (r: Result<
    (crate::metadata::NoteMetadata, usize),
    crate::errors::DeserializationError,
>)
    ensures
        r matches Ok((m, p)) ==> spec_parse_metadata(bytes@, pos as int) == Some((m, p as int))
            && m.wf(),
        r is Err ==> spec_parse_metadata(bytes@, pos as int) is None,
{
    let (sender, p1) = match read_u64(bytes, pos) {
        Some(v) => v,
        None => {
            return Err(crate::errors::DeserializationError::UnexpectedEnd);
        },
    };
    let sender_id = match crate::account::AccountId::new(sender) {
        Ok(a) => a,
        Err(_) => {
            return Err(crate::errors::DeserializationError::InvalidValue(sender));
        },
    };
    let (tb, p2) = match read_u8(bytes, p1) {
        Some(v) => v,
        None => {
            return Err(crate::errors::DeserializationError::UnexpectedEnd);
        },
    };
    let nt = match crate::note_type::NoteType::from_wire(tb) {
        Some(nt) => nt,
        None => {
            return Err(crate::errors::DeserializationError::InvalidValue(tb as u64));
        },
    };
    let (tag, p3) = match read_u32(bytes, p2) {
        Some(v) => v,
        None => {
            return Err(crate::errors::DeserializationError::UnexpectedEnd);
        },
    };
    let (aux, p4) = match read_u64(bytes, p3) {
        Some(v) => v,
        None => {
            return Err(crate::errors::DeserializationError::UnexpectedEnd);
        },
    };
    match crate::metadata::NoteMetadata::new(sender_id, nt, crate::note_tag::NoteTag(tag), aux) {
        Ok(m) => Ok((m, p4)),
        Err(_) => {
            if aux >= crate::FIELD_MODULUS {
                Err(crate::errors::DeserializationError::InvalidValue(aux))
            } else {
                // The tag's class is incompatible with the note type;
                // surface the offending tag.
                Err(crate::errors::DeserializationError::InvalidValue(tag as u64))
            }
        },
    }
}

/// Reads a script at a position.
pub fn read_script(bytes: &Vec<u8>, pos: usize) -> (r: Result<
    (crate::script::NoteScript, usize),
    crate::errors::DeserializationError,
>)
    ensures
        r matches Ok((sc, p)) ==> spec_parse_script(bytes@, pos as int) == Some(
            ((sc.root, sc.code@), p as int),
        ) && sc.wf(),
        r is Err ==> spec_parse_script(bytes@, pos as int) is None,
{
    let (root, p1) = match read_word(bytes, pos) {
        Some(v) => v,
        None => {
            return Err(crate::errors::DeserializationError::UnexpectedEnd);
        },
    };
    let (n, p2) = match read_u32(bytes, p1) {
        Some(v) => v,
        None => {
            return Err(crate::errors::DeserializationError::UnexpectedEnd);
        },
    };
    let (code, p3) = match read_bytes(bytes, p2, n as usize) {
        Some(v) => v,
        None => {
            return Err(crate::errors::DeserializationError::UnexpectedEnd);
        },
    };
    match crate::script::NoteScript::new(root, code) {
        Ok(sc) => Ok((sc, p3)),
        Err(_) => {
            proof {
                assert(false);
            }
            Err(crate::errors::DeserializationError::InvalidValue(n as u64))
        },
    }
}

/// Reads note inputs at a position.
pub fn read_inputs(bytes: &Vec<u8>, pos: usize) -> (r: Result<
    (crate::inputs::NoteInputs, usize),
    crate::errors::DeserializationError,
>)
    ensures
        r matches Ok((inp, p)) ==> spec_parse_inputs(bytes@, pos as int) == Some(
            (inp.values@, p as int),
        ) && inp.wf(),
        r is Err ==> spec_parse_inputs(bytes@, pos as int) is None,
{
    let (n, p1) = match read_u32(bytes, pos) {
        Some(v) => v,
        None => {
            return Err(crate::errors::DeserializationError::UnexpectedEnd);
        },
    };
    if n > crate::inputs::MAX_INPUTS_PER_NOTE as u32 {
        return Err(crate::errors::DeserializationError::InvalidValue(n as u64));
    }
    let (values, p2) = match read_u64_seq(bytes, p1, n as usize) {
        Some(v) => v,
        None => {
            return Err(crate::errors::DeserializationError::UnexpectedEnd);
        },
    };
    proof {
        lemma_parse_u64_seq_shape(bytes@, p1 as int, n as nat);
    }
    match crate::inputs::NoteInputs::new(values) {
        Ok(inp) => Ok((inp, p2)),
        Err(_) => Err(crate::errors::DeserializationError::InvalidValue(n as u64)),
    }
}

/// Reads an asset container at a position.
pub fn read_assets(bytes: &Vec<u8>, pos: usize) -> (r: Result<
    (crate::assets::NoteAssets, usize),
    crate::errors::DeserializationError,
>)
    ensures
        r matches Ok((a, p)) ==> spec_parse_assets(bytes@, pos as int) == Some(
            (a.assets@, p as int),
        ) && a.wf(),
        r is Err ==> spec_parse_assets(bytes@, pos as int) is None,
{
    let (n, p1) = match read_u32(bytes, pos) {
        Some(v) => v,
        None => {
            return Err(crate::errors::DeserializationError::UnexpectedEnd);
        },
    };
    if n > crate::assets::MAX_ASSETS_PER_NOTE as u32 {
        return Err(crate::errors::DeserializationError::InvalidValue(n as u64));
    }
    let (assets, p2) = match read_asset_seq(bytes, p1, n as usize) {
        Some(v) => v,
        None => {
            return Err(crate::errors::DeserializationError::UnexpectedEnd);
        },
    };
    proof {
        lemma_parse_asset_seq_shape(bytes@, p1 as int, n as nat);
    }
    match crate::assets::NoteAssets::new(assets) {
        Ok(a) => Ok((a, p2)),
        Err(_) => Err(crate::errors::DeserializationError::InvalidValue(n as u64)),
    }
}

/// Reads a recipient at a position.
pub fn read_recipient(bytes: &Vec<u8>, pos: usize) -> (r: Result<
    (crate::recipient::NoteRecipient, usize),
    crate::errors::DeserializationError,
>)
    ensures
        r matches Ok((rec, p)) ==> spec_parse_recipient(bytes@, pos as int) == Some(
            (
                (rec.serial_num, rec.script.root, rec.script.code@, rec.inputs.values@),
                p as int,
            ),
        ) && rec.wf(),
        r is Err ==> spec_parse_recipient(bytes@, pos as int) is None,
{
    let (serial, p1) = match read_word(bytes, pos) {
        Some(v) => v,
        None => {
            return Err(crate::errors::DeserializationError::UnexpectedEnd);
        },
    };
    let (script, p2) = match read_script(bytes, p1) {
        Ok(v) => v,
        Err(e) => {
            return Err(e);
        },
    };
    let (inputs, p3) = match read_inputs(bytes, p2) {
        Ok(v) => v,
        Err(e) => {
            return Err(e);
        },
    };
    Ok((crate::recipient::NoteRecipient::new(serial, script, inputs), p3))
}

/// Deserializes a note from its canonical wire format. Only the metadata
/// and the details are read; the note's id and nullifier are recomputed
/// from them, so they can never disagree with the fields they derive from.
/// Fails exactly when the bytes are not the serialization of a well-formed
/// note, or when bytes are left over.
pub fn note_from_bytes(bytes: &Vec<u8>) -> (r: Result<
    crate::note::Note,
    crate::errors::DeserializationError,
>)
    ensures
        r matches Ok(n) ==> {
            &&& n.wf()
            &&& spec_parse_note(bytes@) == Some(
                (
                    n.spec_metadata(),
                    n.spec_details().assets.assets@,
                    n.spec_details().recipient.serial_num,
                    n.spec_details().recipient.script.root,
                    n.spec_details().recipient.script.code@,
                    n.spec_details().recipient.inputs.values@,
                ),
            )
        },
        r is Err <==> spec_parse_note(bytes@) is None,
{
    let (metadata, p1) = match read_metadata(bytes, 0) {
        Ok(v) => v,
        Err(e) => {
            return Err(e);
        },
    };
    let (assets, p2) = match read_assets(bytes, p1) {
        Ok(v) => v,
        Err(e) => {
            return Err(e);
        },
    };
    let (recipient, p3) = match read_recipient(bytes, p2) {
        Ok(v) => v,
        Err(e) => {
            return Err(e);
        },
    };
    if p3 != bytes.len() {
        return Err(crate::errors::DeserializationError::TrailingBytes);
    }
    Ok(crate::note::Note::new(assets, metadata, recipient))
}

} // verus!

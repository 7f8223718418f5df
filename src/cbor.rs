use vstd::prelude::*;
use vstd::slice::slice_subrange;

verus! {

/// The major types of a CBOR data item, with the float/special split of major type 7.
#[derive(Clone, Copy, Debug, PartialEq, Eq, Structural)]
pub enum MajorType {
    /// An unsigned integer whose value is the count.
    UnsignedInteger,
    /// A negative integer whose value is -1 - count.
    NegativeInteger,
    /// A byte string of `count` bytes.
    Bytes,
    /// A UTF-8 text string of `count` bytes.
    String,
    /// An array of `count` items.
    Array,
    /// A map of `count` key/value pairs.
    Pairs,
    /// A semantic tag whose number is the count; the tagged item follows.
    Tag,
    /// A simple value (false, true, null, ...) whose code is the count.
    Special,
    /// A floating-point number; the count holds its bits.
    Float,
}

/// Why a header could not be decoded.
#[derive(Clone, Copy, Debug, PartialEq, Eq, Structural)]
pub enum DecodeError {
    /// The input was empty.
    BufferTooShort,
    /// The header is truncated or uses a reserved count selector.
    CborDecode,
}

/// The major type that a header's first byte announces.
pub open spec fn major_type_of(first: u8) -> MajorType {
    let t = first / 32;
    let sel = first % 32;
    if t == 0 {
        MajorType::UnsignedInteger
    } else if t == 1 {
        MajorType::NegativeInteger
    } else if t == 2 {
        MajorType::Bytes
    } else if t == 3 {
        MajorType::String
    } else if t == 4 {
        MajorType::Array
    } else if t == 5 {
        MajorType::Pairs
    } else if t == 6 {
        MajorType::Tag
    } else if 25 <= sel <= 27 {
        MajorType::Float
    } else {
        MajorType::Special
    }
}

/// The number of count bytes that follow the first byte for a selector of 24 to 27.
pub open spec fn extra_len(sel: u8) -> nat {
    if sel == 24 {
        1
    } else if sel == 25 {
        2
    } else if sel == 26 {
        4
    } else {
        8
    }
}

/// 256 to the power `n`.
pub open spec fn byte_bound(n: nat) -> nat
    decreases n,
{
    if n == 0 {
        1
    } else {
        256 * byte_bound((n - 1) as nat)
    }
}

/// The unsigned big-endian value of a byte sequence.
pub open spec fn be_value(s: Seq<u8>) -> nat
    decreases s.len(),
{
    if s.len() == 0 {
        0
    } else {
        (be_value(s.drop_last()) * 256 + s.last()) as nat
    }
}

/// The `w` low bytes of `v`, big-endian.
pub open spec fn be_bytes(v: nat, w: nat) -> Seq<u8>
    decreases w,
{
    if w == 0 {
        Seq::empty()
    } else {
        be_bytes(v / 256, (w - 1) as nat).push((v % 256) as u8)
    }
}

/// What a header at the start of `s` decodes to: its major type, its count, and how many bytes
/// it takes.
pub open spec fn header_spec(s: Seq<u8>) -> Result<(MajorType, u64, nat), DecodeError> {
    if s.len() == 0 {
        Err(DecodeError::BufferTooShort)
    } else {
        let sel = s[0] % 32;
        if sel <= 23 {
            Ok((major_type_of(s[0]), sel as u64, 1))
        } else if sel >= 28 {
            Err(DecodeError::CborDecode)
        } else if s.len() < 1 + extra_len(sel) {
            Err(DecodeError::CborDecode)
        } else {
            Ok(
                (
                    major_type_of(s[0]),
                    be_value(s.subrange(1, 1 + extra_len(sel) as int)) as u64,
                    1 + extra_len(sel),
                ),
            )
        }
    }
}

/// `r` is what decoding a header from `s` must give: the decoded header and the rest of `s`, or
/// the error.
pub open spec fn decodes_to(s: Seq<u8>, r: Result<(MajorType, u64, &[u8]), DecodeError>) -> bool {
    match header_spec(s) {
        Ok((m, c, n)) => match r {
            Ok((rm, rc, rest)) => rm == m && rc == c && rest@ == s.subrange(n as int, s.len() as int),
            Err(_) => false,
        },
        Err(e) => r == Err::<(MajorType, u64, &[u8]), DecodeError>(e),
    }
}

pub proof fn lemma_byte_bound_mono(i: nat, j: nat)
    requires
        i <= j,
    ensures
        byte_bound(i) <= byte_bound(j),
    decreases j,
{
    if i < j {
        lemma_byte_bound_mono(i, (j - 1) as nat);
    }
}

pub proof fn lemma_byte_bound_values()
    ensures
        byte_bound(1) == 0x100,
        byte_bound(2) == 0x1_0000,
        byte_bound(4) == 0x1_0000_0000,
        byte_bound(7) == 0x100_0000_0000_0000,
        byte_bound(8) == 0x1_0000_0000_0000_0000,
{
    reveal_with_fuel(byte_bound, 9);
}

/// A big-endian value of `n` bytes is below 256 to the power `n`.
pub proof fn lemma_be_value_bound(s: Seq<u8>)
    ensures
        be_value(s) < byte_bound(s.len()),
    decreases s.len(),
{
    if s.len() > 0 {
        lemma_be_value_bound(s.drop_last());
        let v = be_value(s.drop_last());
        let b = byte_bound((s.len() - 1) as nat);
        assert(v * 256 + s.last() < b * 256) by (nonlinear_arith)
            requires
                v < b,
                s.last() < 256,
        ;
    }
}

/// The shapes of a header: an empty input is too short; a count selector of at most 23 is the
/// count itself and the header is one byte, for every major type (under major type 7 such a
/// header is a simple value); a selector of 24 to 27 is followed by 1, 2, 4 or 8 count bytes,
/// read big-endian without loss, and fails where fewer remain; a selector of 28 to 31 fails.
pub proof fn lemma_header_shapes(s: Seq<u8>)
    ensures
        s.len() == 0 ==> header_spec(s) == Err::<(MajorType, u64, nat), DecodeError>(
            DecodeError::BufferTooShort,
        ),
        s.len() > 0 && s[0] % 32 <= 23 ==> header_spec(s) == Ok::<
            (MajorType, u64, nat),
            DecodeError,
        >((major_type_of(s[0]), (s[0] % 32) as u64, 1)),
        s.len() > 0 && s[0] / 32 == 7 && s[0] % 32 <= 23 ==> major_type_of(s[0])
            == MajorType::Special,
        s.len() > 0 && s[0] / 32 == 7 && 25 <= s[0] % 32 <= 27 ==> major_type_of(s[0])
            == MajorType::Float,
        s.len() > 0 && 24 <= s[0] % 32 <= 27 ==> {
            let w = extra_len(s[0] % 32);
            &&& w == if s[0] % 32 == 24 {
                1nat
            } else if s[0] % 32 == 25 {
                2nat
            } else if s[0] % 32 == 26 {
                4nat
            } else {
                8nat
            }
            &&& s.len() < 1 + w ==> header_spec(s) == Err::<(MajorType, u64, nat), DecodeError>(
                DecodeError::CborDecode,
            )
            &&& s.len() >= 1 + w ==> header_spec(s) == Ok::<(MajorType, u64, nat), DecodeError>(
                (major_type_of(s[0]), be_value(s.subrange(1, 1 + w as int)) as u64, 1 + w),
            ) && be_value(s.subrange(1, 1 + w as int)) < byte_bound(8)
        },
        s.len() > 0 && s[0] % 32 >= 28 ==> header_spec(s) == Err::<
            (MajorType, u64, nat),
            DecodeError,
        >(DecodeError::CborDecode),
{
    if s.len() > 0 && 24 <= s[0] % 32 <= 27 {
        let w = extra_len(s[0] % 32);
        if s.len() >= 1 + w {
            lemma_be_value_bound(s.subrange(1, 1 + w as int));
            lemma_byte_bound_mono(w, 8);
        }
    }
}

/// Decodes the header of one CBOR data item at the start of `slice`: its major type, its raw
/// count, and the rest of the slice after the header. Payload bytes are not checked.
pub fn decode_header(slice: &[u8]) -> (r: Result<(MajorType, u64, &[u8]), DecodeError>)
    ensures
        decodes_to(slice@, r),
{
    if slice.len() == 0 {
        return Err(DecodeError::BufferTooShort);
    }
    let first = slice[0];
    let rest = slice_subrange(slice, 1, slice.len());
    let t: u8 = first >> 5;
    let sel: u8 = first & 31;
    assert(t == first / 32 && sel == first % 32) by (bit_vector)
        requires
            t == first >> 5,
            sel == first & 31,
    ;
    let major = if t == 0 {
        MajorType::UnsignedInteger
    } else if t == 1 {
        MajorType::NegativeInteger
    } else if t == 2 {
        MajorType::Bytes
    } else if t == 3 {
        MajorType::String
    } else if t == 4 {
        MajorType::Array
    } else if t == 5 {
        MajorType::Pairs
    } else if t == 6 {
        MajorType::Tag
    } else if 25 <= sel && sel <= 27 {
        MajorType::Float
    } else {
        MajorType::Special
    };
    if sel <= 23 {
        return Ok((major, sel as u64, rest));
    }
    let width: usize = if sel == 24 {
        1
    } else if sel == 25 {
        2
    } else if sel == 26 {
        4
    } else if sel == 27 {
        8
    } else {
        return Err(DecodeError::CborDecode);
    };
    if rest.len() < width {
        return Err(DecodeError::CborDecode);
    }
    let ghost bytes = slice@.subrange(1, 1 + width as int);
    let mut count: u64 = 0;
    let mut i: usize = 0;
    proof {
        lemma_byte_bound_values();
        assert(bytes.subrange(0, 0) =~= Seq::<u8>::empty());
    }
    while i < width
        invariant
            width == extra_len(sel),
            width <= 8,
            i <= width,
            width <= rest@.len(),
            rest@.len() == slice@.len() - 1,
            bytes.len() == width,
            rest@ == slice@.subrange(1, slice@.len() as int),
            bytes == slice@.subrange(1, 1 + width as int),
            count as nat == be_value(bytes.subrange(0, i as int)),
        decreases width - i,
    {
        let b = rest[i];
        proof {
            lemma_be_value_bound(bytes.subrange(0, i as int));
            lemma_byte_bound_mono(i as nat, 7);
            lemma_byte_bound_values();
            let p = bytes.subrange(0, i as int + 1);
            assert(p.drop_last() =~= bytes.subrange(0, i as int));
            assert(p.last() == b);
        }
        assert(count < 0x100_0000_0000_0000);
        let next: u64 = (count << 8) | (b as u64);
        assert(next == count * 256 + b) by (bit_vector)
            requires
                next == (count << 8) | (b as u64),
                count < 0x100_0000_0000_0000,
        ;
        count = next;
        i = i + 1;
    }
    assert(bytes.subrange(0, width as int) =~= bytes);
    let tail = slice_subrange(rest, width, rest.len());
    assert(tail@ =~= slice@.subrange(1 + width as int, slice@.len() as int));
    Ok((major, count, tail))
}

/// How many bytes a header spends on its count.
#[derive(Clone, Copy, Debug, PartialEq, Eq, Structural)]
pub enum CountWidth {
    /// The count (at most 23) sits in the first byte.
    Inline,
    /// One count byte follows the first byte.
    One,
    /// Two count bytes follow, big-endian.
    Two,
    /// Four count bytes follow, big-endian.
    Four,
    /// Eight count bytes follow, big-endian.
    Eight,
}

/// The number of count bytes after the first byte.
pub open spec fn width_len(w: CountWidth) -> nat {
    match w {
        CountWidth::Inline => 0,
        CountWidth::One => 1,
        CountWidth::Two => 2,
        CountWidth::Four => 4,
        CountWidth::Eight => 8,
    }
}

/// Whether `count` can be written with width `w`.
pub open spec fn fits(w: CountWidth, count: u64) -> bool {
    match w {
        CountWidth::Inline => count <= 23,
        _ => count < byte_bound(width_len(w)),
    }
}

/// The count selector (low five bits of the first byte) for width `w`.
pub open spec fn width_selector(w: CountWidth, count: u64) -> u8 {
    match w {
        CountWidth::Inline => count as u8,
        CountWidth::One => 24,
        CountWidth::Two => 25,
        CountWidth::Four => 26,
        CountWidth::Eight => 27,
    }
}

/// The bytes of a header of major type number `major` whose count is written with width `w`.
pub open spec fn encoded_header(major: u8, w: CountWidth, count: u64) -> Seq<u8> {
    seq![(major * 32 + width_selector(w, count)) as u8] + be_bytes(count as nat, width_len(w))
}

pub proof fn lemma_be_bytes_len(v: nat, w: nat)
    ensures
        be_bytes(v, w).len() == w,
    decreases w,
{
    if w > 0 {
        lemma_be_bytes_len(v / 256, (w - 1) as nat);
    }
}

/// Reading back the `w` big-endian bytes of a value below 256 to the power `w` gives the value.
pub proof fn lemma_be_round_trip(v: nat, w: nat)
    requires
        v < byte_bound(w),
    ensures
        be_value(be_bytes(v, w)) == v,
    decreases w,
{
    if w > 0 {
        let b = byte_bound((w - 1) as nat);
        assert(v / 256 < b) by (nonlinear_arith)
            requires
                v < 256 * b,
        ;
        lemma_be_round_trip(v / 256, (w - 1) as nat);
        let s = be_bytes(v, w);
        assert(s.drop_last() =~= be_bytes(v / 256, (w - 1) as nat));
        assert(v == (v / 256) * 256 + v % 256) by (nonlinear_arith);
    }
}

/// Appends `v` to `out` as `w` big-endian bytes.
fn push_be(out: &mut Vec<u8>, v: u64, w: usize)
    requires
        w <= 8,
    ensures
        final(out)@ == old(out)@ + be_bytes(v as nat, w as nat),
    decreases w,
{
    if w > 0 {
        push_be(out, v / 256, w - 1);
        out.push((v % 256) as u8);
        assert(final(out)@ =~= old(out)@ + be_bytes(v as nat, w as nat));
    }
}

/// Appends to `out` a header of major type number `major` (0 to 7) whose count is written with
/// width `w`.
pub fn push_header(out: &mut Vec<u8>, major: u8, w: CountWidth, count: u64)
    requires
        major < 8,
        fits(w, count),
    ensures
        final(out)@ == old(out)@ + encoded_header(major, w, count),
{
    let (sel, len): (u8, usize) = match w {
        CountWidth::Inline => (count as u8, 0),
        CountWidth::One => (24, 1),
        CountWidth::Two => (25, 2),
        CountWidth::Four => (26, 4),
        CountWidth::Eight => (27, 8),
    };
    out.push(major * 32 + sel);
    push_be(out, count, len);
    assert(final(out)@ =~= old(out)@ + encoded_header(major, w, count));
}

/// Decoding a header written with any width gives back its count, and it takes the first byte
/// and the count bytes, whatever follows it.
pub proof fn lemma_header_round_trip(major: u8, w: CountWidth, count: u64, rest: Seq<u8>)
    requires
        major < 8,
        fits(w, count),
    ensures
        ({
            let e = encoded_header(major, w, count);
            header_spec(e + rest) == Ok::<(MajorType, u64, nat), DecodeError>(
                (major_type_of(e[0]), count, 1 + width_len(w)),
            )
        }),
{
    let e = encoded_header(major, w, count);
    let s = e + rest;
    let n = width_len(w);
    lemma_be_bytes_len(count as nat, n);
    lemma_byte_bound_values();
    let first = (major * 32 + width_selector(w, count)) as u8;
    assert(s[0] == first);
    assert(first % 32 == width_selector(w, count));
    if n > 0 {
        lemma_be_round_trip(count as nat, n);
        assert(s.subrange(1, 1 + n as int) =~= be_bytes(count as nat, n));
    }
}

} // verus!

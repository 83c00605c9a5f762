//! The canonical byte encoding that every hash and signature covers.
//!
//! Fixed-width integers are written little-endian, lengths as ULEB128,
//! byte strings and sequences carry their length in front, an optional
//! value carries a one-byte tag, and the fields of a structure follow one
//! another in declaration order with nothing in between.

use vstd::prelude::*;

verus! {

/// The longest byte string, and the longest sequence, that can be framed.
pub const MAX_SEQUENCE_LENGTH: usize = 0x7fff_ffff;

/// ULEB128 form of `n`: seven bits per byte, least significant group first,
/// the high bit set on every byte but the last.
pub open spec fn uleb128(n: nat) -> Seq<u8>
    decreases n,
{
    if n < 0x80 {
        seq![n as u8]
    } else {
        seq![(0x80 + n % 0x80) as u8] + uleb128(n / 0x80)
    }
}

/// The `width` low-order bytes of `n`, least significant first.
pub open spec fn le_bytes(n: nat, width: nat) -> Seq<u8>
    decreases width,
{
    if width == 0 {
        Seq::empty()
    } else {
        seq![(n % 0x100) as u8] + le_bytes(n / 0x100, (width - 1) as nat)
    }
}

/// Encoding of an 8-bit unsigned integer: one byte.
pub open spec fn u8_encoding(v: u8) -> Seq<u8> {
    le_bytes(v as nat, 1)
}

/// Encoding of a 16-bit unsigned integer: two bytes.
pub open spec fn u16_encoding(v: u16) -> Seq<u8> {
    le_bytes(v as nat, 2)
}

/// Encoding of a 32-bit unsigned integer: four bytes.
pub open spec fn u32_encoding(v: u32) -> Seq<u8> {
    le_bytes(v as nat, 4)
}

/// Encoding of a 64-bit unsigned integer: eight bytes.
pub open spec fn u64_encoding(v: u64) -> Seq<u8> {
    le_bytes(v as nat, 8)
}

/// Encoding of a 128-bit unsigned integer: sixteen bytes.
pub open spec fn u128_encoding(v: u128) -> Seq<u8> {
    le_bytes(v as nat, 16)
}

/// Encoding of an 8-bit signed integer: the byte of its two's-complement
/// form.
pub open spec fn i8_encoding(v: i8) -> Seq<u8> {
    le_bytes(
        if v >= 0 {
            v as nat
        } else {
            (v + 0x100) as nat
        },
        1,
    )
}

/// Encoding of a 16-bit signed integer: the two bytes of its
/// two's-complement form.
pub open spec fn i16_encoding(v: i16) -> Seq<u8> {
    le_bytes(
        if v >= 0 {
            v as nat
        } else {
            (v + 0x1_0000) as nat
        },
        2,
    )
}

/// Encoding of a 32-bit signed integer: the four bytes of its
/// two's-complement form.
pub open spec fn i32_encoding(v: i32) -> Seq<u8> {
    le_bytes(
        if v >= 0 {
            v as nat
        } else {
            (v + 0x1_0000_0000) as nat
        },
        4,
    )
}

/// Encoding of a 64-bit signed integer: the eight bytes of its
/// two's-complement form.
pub open spec fn i64_encoding(v: i64) -> Seq<u8> {
    le_bytes(
        if v >= 0 {
            v as nat
        } else {
            (v + 0x1_0000_0000_0000_0000) as nat
        },
        8,
    )
}

/// Encoding of a 128-bit signed integer: the sixteen bytes of its
/// two's-complement form.
pub open spec fn i128_encoding(v: i128) -> Seq<u8> {
    le_bytes(
        if v >= 0 {
            v as nat
        } else {
            (v + 0x1_0000_0000_0000_0000_0000_0000_0000_0000) as nat
        },
        16,
    )
}

/// Encoding of a byte string: its length, then the bytes.
pub open spec fn byte_string_encoding(bytes: Seq<u8>) -> Seq<u8> {
    uleb128(bytes.len()) + bytes
}

/// Encoding of an optional byte string: `00` when absent, `01` and the byte
/// string when present.
pub open spec fn optional_byte_string_encoding(bytes: Option<Seq<u8>>) -> Seq<u8> {
    match bytes {
        None => seq![0u8],
        Some(b) => seq![1u8] + byte_string_encoding(b),
    }
}

/// Appends the ULEB128 form of `n`.
pub fn write_uleb128(out: &mut Vec<u8>, n: u32)
    ensures
        final(out)@ == old(out)@ + uleb128(n as nat),
{
    let mut rest: u32 = n;
    while rest >= 0x80
        invariant
            out@ + uleb128(rest as nat) == old(out)@ + uleb128(n as nat),
        decreases rest,
    {
        let group: u8 = (0x80 + rest % 0x80) as u8;
        proof {
            assert(out@.push(group) + uleb128((rest / 0x80) as nat) =~= out@ + uleb128(
                rest as nat,
            ));
        }
        out.push(group);
        rest = rest / 0x80;
    }
    proof {
        assert(out@.push(rest as u8) =~= out@ + uleb128(rest as nat));
    }
    out.push(rest as u8);
}

/// Appends the `width` low-order bytes of `v`, least significant first.
fn write_le(out: &mut Vec<u8>, v: u128, width: usize)
    ensures
        final(out)@ == old(out)@ + le_bytes(v as nat, width as nat),
{
    let mut rest: u128 = v;
    let mut done: usize = 0;
    while done < width
        invariant
            done <= width,
            out@ + le_bytes(rest as nat, (width - done) as nat) == old(out)@ + le_bytes(
                v as nat,
                width as nat,
            ),
        decreases width - done,
    {
        let byte: u8 = (rest % 0x100) as u8;
        proof {
            assert(out@.push(byte) + le_bytes((rest / 0x100) as nat, (width - done - 1) as nat)
                =~= out@ + le_bytes(rest as nat, (width - done) as nat));
        }
        out.push(byte);
        rest = rest / 0x100;
        done = done + 1;
    }
    proof {
        assert(out@ + le_bytes(rest as nat, 0) =~= out@);
    }
}

/// Appends the encoding of a 16-bit unsigned integer.
pub fn write_u16(out: &mut Vec<u8>, v: u16)
    ensures
        final(out)@ == old(out)@ + u16_encoding(v),
{
    write_le(out, v as u128, 2);
}

/// Appends the encoding of a 64-bit unsigned integer.
pub fn write_u64(out: &mut Vec<u8>, v: u64)
    ensures
        final(out)@ == old(out)@ + u64_encoding(v),
{
    write_le(out, v as u128, 8);
}

/// Appends the encoding of a 64-bit signed integer.
pub fn write_i64(out: &mut Vec<u8>, v: i64)
    ensures
        final(out)@ == old(out)@ + i64_encoding(v),
{
    if v >= 0 {
        write_le(out, v as u128, 8);
    } else {
        let low: u64 = (v - i64::MIN) as u64;
        write_le(out, (low + 0x8000_0000_0000_0000u64) as u128, 8);
    }
}

/// Appends the bytes of `bytes` as they are.
pub fn write_raw(out: &mut Vec<u8>, bytes: &[u8])
    ensures
        final(out)@ == old(out)@ + bytes@,
{
    let mut i: usize = 0;
    while i < bytes.len()
        invariant
            i <= bytes.len(),
            out@ == old(out)@ + bytes@.subrange(0, i as int),
        decreases bytes.len() - i,
    {
        proof {
            assert(out@.push(bytes[i as int]) =~= old(out)@ + bytes@.subrange(0, i + 1));
        }
        out.push(bytes[i]);
        i = i + 1;
    }
    proof {
        assert(bytes@.subrange(0, bytes.len() as int) =~= bytes@);
    }
}

/// Appends the encoding of a byte string.
pub fn write_byte_string(out: &mut Vec<u8>, bytes: &[u8])
    requires
        bytes.len() <= MAX_SEQUENCE_LENGTH,
    ensures
        final(out)@ == old(out)@ + byte_string_encoding(bytes@),
{
    write_uleb128(out, bytes.len() as u32);
    write_raw(out, bytes);
    proof {
        assert(out@ =~= old(out)@ + byte_string_encoding(bytes@));
    }
}

/// A value with a canonical byte encoding.
pub trait Encode {
    /// The canonical bytes of the value.
    spec fn encoding(&self) -> Seq<u8>;

    /// Appends the canonical bytes of the value.
    fn encode_into(&self, out: &mut Vec<u8>)
        ensures
            final(out)@ == old(out)@ + self.encoding(),
    ;
}

impl Encode for u8 {
    open spec fn encoding(&self) -> Seq<u8> {
        u8_encoding(*self)
    }

    fn encode_into(&self, out: &mut Vec<u8>) {
        write_le(out, *self as u128, 1);
    }
}

impl Encode for u16 {
    open spec fn encoding(&self) -> Seq<u8> {
        u16_encoding(*self)
    }

    fn encode_into(&self, out: &mut Vec<u8>) {
        write_u16(out, *self);
    }
}

impl Encode for u32 {
    open spec fn encoding(&self) -> Seq<u8> {
        u32_encoding(*self)
    }

    fn encode_into(&self, out: &mut Vec<u8>) {
        write_le(out, *self as u128, 4);
    }
}

impl Encode for u64 {
    open spec fn encoding(&self) -> Seq<u8> {
        u64_encoding(*self)
    }

    fn encode_into(&self, out: &mut Vec<u8>) {
        write_u64(out, *self);
    }
}

impl Encode for u128 {
    open spec fn encoding(&self) -> Seq<u8> {
        u128_encoding(*self)
    }

    fn encode_into(&self, out: &mut Vec<u8>) {
        write_le(out, *self, 16);
    }
}

impl Encode for i8 {
    open spec fn encoding(&self) -> Seq<u8> {
        i8_encoding(*self)
    }

    fn encode_into(&self, out: &mut Vec<u8>) {
        let v = *self;
        if v >= 0 {
            write_le(out, v as u128, 1);
        } else {
            let low: u8 = (v - i8::MIN) as u8;
            write_le(out, (low + 0x80u8) as u128, 1);
        }
    }
}

impl Encode for i16 {
    open spec fn encoding(&self) -> Seq<u8> {
        i16_encoding(*self)
    }

    fn encode_into(&self, out: &mut Vec<u8>) {
        let v = *self;
        if v >= 0 {
            write_le(out, v as u128, 2);
        } else {
            let low: u16 = (v - i16::MIN) as u16;
            write_le(out, (low + 0x8000u16) as u128, 2);
        }
    }
}

impl Encode for i32 {
    open spec fn encoding(&self) -> Seq<u8> {
        i32_encoding(*self)
    }

    fn encode_into(&self, out: &mut Vec<u8>) {
        let v = *self;
        if v >= 0 {
            write_le(out, v as u128, 4);
        } else {
            let low: u32 = (v - i32::MIN) as u32;
            write_le(out, (low + 0x8000_0000u32) as u128, 4);
        }
    }
}

impl Encode for i64 {
    open spec fn encoding(&self) -> Seq<u8> {
        i64_encoding(*self)
    }

    fn encode_into(&self, out: &mut Vec<u8>) {
        write_i64(out, *self);
    }
}

impl Encode for i128 {
    open spec fn encoding(&self) -> Seq<u8> {
        i128_encoding(*self)
    }

    fn encode_into(&self, out: &mut Vec<u8>) {
        let v = *self;
        if v >= 0 {
            write_le(out, v as u128, 16);
        } else {
            let low: u128 = (v - i128::MIN) as u128;
            write_le(out, low + 0x8000_0000_0000_0000_0000_0000_0000_0000u128, 16);
        }
    }
}

/// The canonical bytes of `value`.
pub fn to_bytes<T: Encode>(value: &T) -> (bytes: Vec<u8>)
    ensures
        bytes@ == value.encoding(),
{
    let mut bytes: Vec<u8> = Vec::new();
    value.encode_into(&mut bytes);
    proof {
        assert(Seq::<u8>::empty() + value.encoding() =~= value.encoding());
    }
    bytes
}

} // verus!

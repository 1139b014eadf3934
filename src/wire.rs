//! Fields of the envelope wire format (protobuf): a key, which is the field
//! number times eight plus the wire type, then the value. Integers are
//! LEB128; length-delimited values are a length and that many bytes; fixed
//! values are eight or four bytes. Group wire types are not accepted.

use vstd::prelude::*;
use crate::varint::{lemma_varint_at, prost_encode_varint, read_varint, varint, varint_at};

verus! {

/// Largest field number a key may carry.
pub const MAX_FIELD: u64 = 0x1fff_ffff;

/// Wire type of a length-delimited field.
pub const LEN_KIND: u64 = 2;

/// A field that holds one integer.
#[verifier::opaque]
pub open spec fn varint_field(num: nat, v: nat) -> Seq<u8> {
    varint(num * 8) + varint(v)
}

/// A field that holds a length and that many bytes.
#[verifier::opaque]
pub open spec fn bytes_field(num: nat, b: Seq<u8>) -> Seq<u8> {
    varint(num * 8 + 2) + varint(b.len()) + b
}

/// The value of one field, by wire type.
pub enum WireValue {
    Varint(nat),
    Len(Seq<u8>),
    Fixed64,
    Fixed32,
}

/// One field as read from the wire.
pub struct Field {
    pub num: nat,
    pub value: WireValue,
}

/// The field that starts at `pos`, with the position after it. A key above
/// 32 bits, a field number of zero, or a wire type other than integer,
/// 64-bit, length-delimited or 32-bit is refused, as is a value that runs
/// past the end.
pub open spec fn field_at(s: Seq<u8>, pos: nat) -> Option<(Field, nat)> {
    match varint_at(s, pos) {
        None => None,
        Some((key, p)) => if key > u32::MAX || key / 8 == 0 {
            None
        } else {
            let num = key / 8;
            let wt = key % 8;
            if wt == 0 {
                match varint_at(s, p) {
                    Some((v, q)) => Some((Field { num, value: WireValue::Varint(v) }, q)),
                    None => None,
                }
            } else if wt == 1 {
                if p + 8 <= s.len() {
                    Some((Field { num, value: WireValue::Fixed64 }, p + 8))
                } else {
                    None
                }
            } else if wt == 2 {
                match varint_at(s, p) {
                    Some((l, q)) => if q + l <= s.len() {
                        Some(
                            (
                                Field { num, value: WireValue::Len(s.subrange(q as int, (q + l) as int)) },
                                q + l,
                            ),
                        )
                    } else {
                        None
                    },
                    None => None,
                }
            } else if wt == 5 {
                if p + 4 <= s.len() {
                    Some((Field { num, value: WireValue::Fixed32 }, p + 4))
                } else {
                    None
                }
            } else {
                None
            }
        },
    }
}

/// A field as a reader hands it out: a length-delimited value is given by
/// its start and end in the input.
pub enum WireItem {
    Varint(u64),
    Len(usize, usize),
    Fixed64,
    Fixed32,
}

pub struct FieldItem {
    pub num: u64,
    pub item: WireItem,
}

pub open spec fn item_view(s: Seq<u8>, f: FieldItem) -> Field {
    Field {
        num: f.num as nat,
        value: match f.item {
            WireItem::Varint(v) => WireValue::Varint(v as nat),
            WireItem::Len(a, e) => WireValue::Len(s.subrange(a as int, e as int)),
            WireItem::Fixed64 => WireValue::Fixed64,
            WireItem::Fixed32 => WireValue::Fixed32,
        },
    }
}

/// Reads the field at `pos`.
pub fn read_field(b: &[u8], pos: usize) -> (r: Option<(FieldItem, usize)>)
    ensures
        match r {
            Some((f, p)) => field_at(b@, pos as nat) == Some((item_view(b@, f), p as nat)) && pos < p
                <= b@.len() && (f.item matches WireItem::Len(a, e) ==> a <= e <= b@.len()),
            None => field_at(b@, pos as nat) is None,
        },
{
    let (key, p) = match read_varint(b, pos) {
        Some(x) => x,
        None => return None,
    };
    if key > u32::MAX as u64 || key / 8 == 0 {
        return None;
    }
    let num = key / 8;
    let wt = key % 8;
    if wt == 0 {
        match read_varint(b, p) {
            Some((v, q)) => Some((FieldItem { num, item: WireItem::Varint(v) }, q)),
            None => None,
        }
    } else if wt == 1 {
        if b.len() - p >= 8 {
            Some((FieldItem { num, item: WireItem::Fixed64 }, p + 8))
        } else {
            None
        }
    } else if wt == 2 {
        match read_varint(b, p) {
            Some((l, q)) => if l <= (b.len() - q) as u64 {
                let e = q + l as usize;
                Some((FieldItem { num, item: WireItem::Len(q, e) }, e))
            } else {
                None
            },
            None => None,
        }
    } else if wt == 5 {
        if b.len() - p >= 4 {
            Some((FieldItem { num, item: WireItem::Fixed32 }, p + 4))
        } else {
            None
        }
    } else {
        None
    }
}

/// The wire form of a field this library writes.
pub open spec fn field_enc(f: Field) -> Seq<u8> {
    match f.value {
        WireValue::Varint(v) => varint_field(f.num, v),
        WireValue::Len(b) => bytes_field(f.num, b),
        _ => Seq::empty(),
    }
}

/// Fields this library writes: a valid number, and values that fit.
pub open spec fn field_ok(f: Field) -> bool {
    &&& 1 <= f.num <= MAX_FIELD
    &&& match f.value {
        WireValue::Varint(v) => v < 0x1_0000_0000_0000_0000nat,
        WireValue::Len(b) => b.len() < 0x1_0000_0000_0000_0000nat,
        _ => false,
    }
}

/// A written field reads back as itself, with the rest of the bytes after it.
pub proof fn lemma_field_at(s: Seq<u8>, pos: nat, f: Field, t: Seq<u8>)
    requires
        pos <= s.len(),
        s.subrange(pos as int, s.len() as int) == field_enc(f) + t,
        field_ok(f),
    ensures
        field_at(s, pos) == Some((f, pos + field_enc(f).len())),
        pos < pos + field_enc(f).len() <= s.len(),
        s.subrange((pos + field_enc(f).len()) as int, s.len() as int) == t,
{
    reveal(varint_field);
    reveal(bytes_field);
    match f.value {
        WireValue::Varint(v) => {
            let k = varint(f.num * 8);
            assert(s.subrange(pos as int, s.len() as int) =~= k + (varint(v) + t));
            lemma_varint_at(s, pos, f.num * 8, varint(v) + t);
            lemma_varint_at(s, pos + k.len(), v, t);
            crate::varint::lemma_varint_len(v);
        },
        WireValue::Len(b) => {
            let k = varint(f.num * 8 + 2);
            let l = varint(b.len());
            assert(s.subrange(pos as int, s.len() as int) =~= k + (l + (b + t)));
            lemma_varint_at(s, pos, f.num * 8 + 2, l + (b + t));
            lemma_varint_at(s, pos + k.len(), b.len(), b + t);
            crate::varint::lemma_varint_len(b.len());
            let q = pos + k.len() + l.len();
            assert(s.subrange(q as int, s.len() as int) == b + t);
            assert(s.subrange(q as int, (q + b.len()) as int) =~= (b + t).subrange(0, b.len() as int));
            assert((b + t).subrange(0, b.len() as int) =~= b);
            assert(s.subrange((q + b.len()) as int, s.len() as int) =~= (b + t).subrange(
                b.len() as int,
                (b + t).len() as int,
            ));
            assert((b + t).subrange(b.len() as int, (b + t).len() as int) =~= t);
        },
        _ => {},
    }
}

/// Appends `src` to `dst`.
pub fn append_bytes(dst: &mut Vec<u8>, src: &[u8])
    ensures
        final(dst)@ == old(dst)@ + src@,
{
    let ghost start = dst@;
    let mut i: usize = 0;
    while i < src.len()
        invariant
            i <= src@.len(),
            dst@ == start + src@.subrange(0, i as int),
        decreases src@.len() - i,
    {
        dst.push(src[i]);
        i = i + 1;
        assert(dst@ =~= start + src@.subrange(0, i as int));
    }
    assert(src@.subrange(0, src@.len() as int) =~= src@);
}

/// Appends a field that holds the integer `v`.
pub fn write_varint_field(buf: &mut Vec<u8>, num: u64, v: u64)
    requires
        num <= MAX_FIELD,
    ensures
        final(buf)@ == old(buf)@ + varint_field(num as nat, v as nat),
{
    reveal(varint_field);
    prost_encode_varint(buf, num * 8);
    prost_encode_varint(buf, v);
    assert(final(buf)@ =~= old(buf)@ + varint_field(num as nat, v as nat));
}

/// Appends a field that holds the bytes `b`.
pub fn write_bytes_field(buf: &mut Vec<u8>, num: u64, b: &[u8])
    requires
        num <= MAX_FIELD,
    ensures
        final(buf)@ == old(buf)@ + bytes_field(num as nat, b@),
{
    reveal(bytes_field);
    prost_encode_varint(buf, num * 8 + LEN_KIND);
    prost_encode_varint(buf, b.len() as u64);
    append_bytes(buf, b);
    assert(final(buf)@ =~= old(buf)@ + bytes_field(num as nat, b@));
}

/// An integer field as a writer leaves it: left out when zero.
pub open spec fn opt_uint(num: nat, v: nat) -> Seq<u8> {
    if v == 0 {
        Seq::empty()
    } else {
        varint_field(num, v)
    }
}

/// Appends field `num` with `v`, unless `v` is zero.
pub fn write_opt_uint(buf: &mut Vec<u8>, num: u64, v: u64)
    requires
        num <= MAX_FIELD,
    ensures
        final(buf)@ == old(buf)@ + opt_uint(num as nat, v as nat),
{
    if v != 0 {
        write_varint_field(buf, num, v);
    } else {
        assert(buf@ =~= old(buf)@ + opt_uint(num as nat, v as nat));
    }
}

/// An unsigned 32-bit field's value: the low 32 bits of what was read.
pub open spec fn u32_of(v: nat) -> u32 {
    (v % 0x1_0000_0000) as u32
}

/// An unsigned 64-bit field's value.
pub open spec fn u64_of(v: nat) -> u64 {
    (v % 0x1_0000_0000_0000_0000) as u64
}

/// A signed 32-bit field's value: the low 32 bits, as two's complement.
pub open spec fn i32_of(v: nat) -> i32 {
    let w = v % 0x1_0000_0000;
    if w >= 0x8000_0000 {
        (w - 0x1_0000_0000) as i32
    } else {
        w as i32
    }
}

/// How a signed 32-bit value is written: sign-extended to 64 bits.
pub open spec fn i32_code(i: i32) -> nat {
    if i >= 0 {
        i as nat
    } else {
        (i + 0x1_0000_0000_0000_0000) as nat
    }
}

pub fn u32_value(v: u64) -> (r: u32)
    ensures
        r == u32_of(v as nat),
{
    (v % 0x1_0000_0000) as u32
}

pub fn i32_value(v: u64) -> (r: i32)
    ensures
        r == i32_of(v as nat),
{
    let w = v % 0x1_0000_0000;
    if w >= 0x8000_0000 {
        (w as i64 - 0x1_0000_0000) as i32
    } else {
        w as i32
    }
}

pub fn i32_wire(i: i32) -> (r: u64)
    ensures
        r as nat == i32_code(i),
{
    if i >= 0 {
        i as u64
    } else {
        (i as i128 + 0x1_0000_0000_0000_0000) as u64
    }
}

pub proof fn lemma_i32_round_trip(i: i32)
    ensures
        i32_of(i32_code(i)) == i,
        i32_code(i) < 0x1_0000_0000_0000_0000nat,
{
    if i < 0 {
        let c = (i + 0x1_0000_0000_0000_0000) as nat;
        assert(c % 0x1_0000_0000 == (i + 0x1_0000_0000) as nat) by (nonlinear_arith)
            requires
                c == i + 0x1_0000_0000_0000_0000,
                -0x8000_0000 <= i < 0,
        ;
    }
}

} // verus!

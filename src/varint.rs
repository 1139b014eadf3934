//! LEB128 integers, the base unit of the envelope wire format.

use vstd::prelude::*;

verus! {

/// The canonical LEB128 form of `v`: seven bits per byte, lowest group first,
/// the high bit set on every byte but the last.
pub open spec fn varint(v: nat) -> Seq<u8>
    decreases v,
{
    if v < 128 {
        seq![v as u8]
    } else {
        seq![(v % 128 + 128) as u8] + varint(v / 128)
    }
}

/// Reads one LEB128 integer from the front of `s`, using at most `budget`
/// bytes; the byte read with one unit of budget left may only be 0 or 1, so
/// that ten bytes never exceed 64 bits. Gives the value and the bytes used.
pub open spec fn leb_read(s: Seq<u8>, budget: nat) -> Option<(nat, nat)>
    decreases budget,
{
    if budget == 0 || s.len() == 0 {
        None
    } else if s[0] < 128 {
        if budget == 1 && s[0] >= 2 {
            None
        } else {
            Some((s[0] as nat, 1nat))
        }
    } else {
        match leb_read(s.drop_first(), (budget - 1) as nat) {
            Some((v, n)) => Some((((s[0] - 128) + 128 * v) as nat, n + 1)),
            None => None,
        }
    }
}

/// The integer that starts at `pos` in `s`, with the position just after it.
#[verifier::opaque]
pub open spec fn varint_at(s: Seq<u8>, pos: nat) -> Option<(nat, nat)> {
    if pos > s.len() {
        None
    } else {
        match leb_read(s.subrange(pos as int, s.len() as int), 10) {
            Some((v, n)) => Some((v, pos + n)),
            None => None,
        }
    }
}

/// Upper bound (exclusive) on what `budget` bytes can carry under `leb_read`.
pub open spec fn leb_cap(budget: nat) -> nat
    decreases budget,
{
    if budget <= 1 {
        2
    } else {
        128 * leb_cap((budget - 1) as nat)
    }
}

pub proof fn lemma_leb_cap_ten()
    ensures
        leb_cap(10) == 0x1_0000_0000_0000_0000nat,
{
    reveal_with_fuel(leb_cap, 11);
}

pub proof fn lemma_varint_len(v: nat)
    ensures
        varint(v).len() >= 1,
    decreases v,
{
    if v >= 128 {
        lemma_varint_len(v / 128);
    }
}

/// A successful read uses at least one byte and no more than there are.
pub proof fn lemma_leb_read_len(s: Seq<u8>, budget: nat)
    ensures
        leb_read(s, budget) matches Some((_, n)) ==> 1 <= n <= s.len(),
    decreases budget,
{
    if budget > 0 && s.len() > 0 && s[0] >= 128 {
        lemma_leb_read_len(s.drop_first(), (budget - 1) as nat);
    }
}

pub proof fn lemma_varint_len_bound(v: nat)
    ensures
        varint(v).len() <= v + 1,
    decreases v,
{
    if v >= 128 {
        lemma_varint_len_bound(v / 128);
    }
}

/// Reading back the canonical form of a value that fits the budget gives the
/// value and exactly the bytes of that form, whatever follows them.
pub proof fn lemma_leb_read_varint(v: nat, t: Seq<u8>, budget: nat)
    requires
        budget >= 1,
        v < leb_cap(budget),
    ensures
        leb_read(varint(v) + t, budget) == Some((v, varint(v).len())),
    decreases v,
{
    let s = varint(v) + t;
    if v < 128 {
        assert(s[0] == v as u8);
        if budget == 1 {
            assert(v < 2);
        }
    } else {
        let q = v / 128;
        lemma_varint_len(q);
        assert(budget > 1) by {
            if budget <= 1 {
                assert(leb_cap(budget) == 2);
            }
        }
        let b1 = (budget - 1) as nat;
        assert(q < leb_cap(b1)) by (nonlinear_arith)
            requires
                v < 128 * leb_cap(b1),
                q == v / 128,
        ;
        lemma_leb_read_varint(q, t, b1);
        assert(s.drop_first() =~= varint(q) + t);
        assert(s[0] == (v % 128 + 128) as u8);
        assert(v == v % 128 + 128 * q) by (nonlinear_arith)
            requires
                q == v / 128,
        ;
    }
}

/// The integer written at `pos` reads back, with the rest of `s` after it.
pub proof fn lemma_varint_at(s: Seq<u8>, pos: nat, v: nat, t: Seq<u8>)
    requires
        pos <= s.len(),
        s.subrange(pos as int, s.len() as int) == varint(v) + t,
        v < 0x1_0000_0000_0000_0000nat,
    ensures
        varint_at(s, pos) == Some((v, pos + varint(v).len())),
        s.subrange((pos + varint(v).len()) as int, s.len() as int) == t,
{
    reveal(varint_at);
    lemma_leb_cap_ten();
    lemma_leb_read_varint(v, t, 10);
    let n = varint(v).len();
    assert(s.subrange((pos + n) as int, s.len() as int) =~= (varint(v) + t).subrange(
        n as int,
        (varint(v) + t).len() as int,
    ));
    assert((varint(v) + t).subrange(n as int, (varint(v) + t).len() as int) =~= t);
}

/// Relies on prost::encoding::encode_varint: it appends the LEB128 form of
/// `v` to the buffer.
#[verifier::external_body]
pub(crate) fn prost_encode_varint(buf: &mut Vec<u8>, v: u64)
    ensures
        final(buf)@ == old(buf)@ + varint(v as nat),
{
    prost::encoding::encode_varint(v, buf)
}

/// Relies on prost::encoding::decode_varint: it reads one LEB128 integer of
/// at most ten bytes (the tenth being 0 or 1) from `b[pos..]`; the result
/// carries the count of bytes left after it.
#[verifier::external_body]
fn prost_decode_varint(b: &[u8], pos: usize) -> (r: Option<(u64, usize)>)
    requires
        pos <= b@.len(),
    ensures
        match r {
            Some((v, left)) => left <= b@.len() - pos && leb_read(
                b@.subrange(pos as int, b@.len() as int),
                10,
            ) == Some((v as nat, (b@.len() - pos - left) as nat)),
            None => leb_read(b@.subrange(pos as int, b@.len() as int), 10) is None,
        },
{
    let mut rest: &[u8] = &b[pos..];
    match prost::encoding::decode_varint(&mut rest) {
        Ok(v) => Some((v, rest.len())),
        Err(_) => None,
    }
}

/// Reads the integer that starts at `pos`: its value and the position after it.
pub fn read_varint(b: &[u8], pos: usize) -> (r: Option<(u64, usize)>)
    ensures
        match r {
            Some((v, p)) => varint_at(b@, pos as nat) == Some((v as nat, p as nat)),
            None => varint_at(b@, pos as nat) is None,
        },
        r matches Some((_, p)) ==> pos < p <= b@.len(),
{
    reveal(varint_at);
    if pos > b.len() {
        return None;
    }
    proof {
        lemma_leb_read_len(b@.subrange(pos as int, b@.len() as int), 10);
    }
    match prost_decode_varint(b, pos) {
        Some((v, left)) => Some((v, b.len() - left)),
        None => None,
    }
}

} // verus!

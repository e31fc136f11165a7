//! The byte layout of single values.
//!
//! Host and contract exchange values in the SCALE layout: integers in
//! little-endian order, a byte string behind its length in compact form, a flag
//! as one byte, an account as its 32 bytes. Each layout has a spec function
//! `enc_*` that gives the bytes of a value and a spec function `parse_*` that
//! reads a value off the front of a byte sequence and returns it with the bytes
//! that follow. The integers and the byte strings are written and read by
//! `parity_scale_codec`; the single bytes and the accounts are written and read
//! here.

use vstd::prelude::*;
use vstd::bytes::{
    lemma_auto_spec_u128_to_from_le_bytes, lemma_auto_spec_u32_to_from_le_bytes,
    lemma_auto_spec_u64_to_from_le_bytes, spec_u128_from_le_bytes, spec_u128_to_le_bytes,
    spec_u32_from_le_bytes, spec_u32_to_le_bytes, spec_u64_from_le_bytes, spec_u64_to_le_bytes,
};
use parity_scale_codec::{Decode, Encode};

verus! {

/// The bytes of `s` from position `k` on.
pub open spec fn tail(s: Seq<u8>, k: int) -> Seq<u8> {
    s.subrange(k, s.len() as int)
}

/// One byte, as it is.
pub open spec fn enc_u8(x: u8) -> Seq<u8> {
    seq![x]
}

/// A flag: 1 for true, 0 for false.
pub open spec fn enc_bool(b: bool) -> Seq<u8> {
    seq![if b { 1u8 } else { 0u8 }]
}

/// Four bytes, least significant first.
pub open spec fn enc_u32(x: u32) -> Seq<u8> {
    spec_u32_to_le_bytes(x)
}

/// Eight bytes, least significant first.
pub open spec fn enc_u64(x: u64) -> Seq<u8> {
    spec_u64_to_le_bytes(x)
}

/// Sixteen bytes, least significant first.
pub open spec fn enc_u128(x: u128) -> Seq<u8> {
    spec_u128_to_le_bytes(x)
}

/// A value of 32 bytes (an account, a random seed): the bytes, with nothing
/// before them.
pub open spec fn enc_fixed32(a: Seq<u8>) -> Seq<u8> {
    a
}

/// An optional flag: a 0 byte for none, else a 1 byte and the flag.
pub open spec fn enc_option_bool(o: Option<bool>) -> Seq<u8> {
    match o {
        None => seq![0u8],
        Some(b) => seq![1u8] + enc_bool(b),
    }
}

/// A length in compact form. The two low bits of the first byte say how many
/// bytes follow: lengths below 2^6 take one byte, below 2^14 two, below 2^30
/// four, each holding four times the length plus that mark, least significant
/// byte first; larger lengths take a byte 3 and the four bytes of the length.
pub open spec fn enc_compact(n: u32) -> Seq<u8> {
    if n < 0x40 {
        seq![(4 * n) as u8]
    } else if n < 0x4000 {
        seq![((4 * n + 1) % 256) as u8, ((4 * n + 1) / 256) as u8]
    } else if n < 0x4000_0000 {
        seq![
            ((4 * n + 2) % 256) as u8,
            ((4 * n + 2) / 256 % 256) as u8,
            ((4 * n + 2) / 65536 % 256) as u8,
            ((4 * n + 2) / 16777216) as u8,
        ]
    } else {
        seq![3u8] + enc_u32(n)
    }
}

/// A byte string: its length in compact form, then its bytes. Stated for
/// strings of at most `u32::MAX` bytes.
pub open spec fn enc_bytes(v: Seq<u8>) -> Seq<u8> {
    enc_compact(v.len() as u32) + v
}

/// `s` begins with the compact form of `n` and holds at least `n` bytes after it.
pub open spec fn frames(s: Seq<u8>, n: u32) -> bool {
    let p = enc_compact(n);
    &&& s.len() >= p.len() + n
    &&& s.subrange(0, p.len() as int) == p
}

/// Reads a byte string off the front: where `s` begins with the compact form of
/// a length and holds that many bytes after it, those bytes and what follows
/// them. No two lengths have compact forms that begin alike
/// (`lemma_one_frame`), so there is at most one such length.
pub open spec fn parse_bytes(s: Seq<u8>) -> Option<(Seq<u8>, Seq<u8>)> {
    if exists|n: u32| frames(s, n) {
        let n = choose|n: u32| frames(s, n);
        let k = enc_compact(n).len() as int;
        Some((s.subrange(k, k + n), tail(s, k + n)))
    } else {
        None
    }
}

pub open spec fn parse_u8(s: Seq<u8>) -> Option<(u8, Seq<u8>)> {
    if s.len() >= 1 {
        Some((s[0], tail(s, 1)))
    } else {
        None
    }
}

/// Only the bytes 0 and 1 are flags.
pub open spec fn parse_bool(s: Seq<u8>) -> Option<(bool, Seq<u8>)> {
    if s.len() >= 1 && s[0] <= 1 {
        Some((s[0] == 1, tail(s, 1)))
    } else {
        None
    }
}

pub open spec fn parse_u32(s: Seq<u8>) -> Option<(u32, Seq<u8>)> {
    if s.len() >= 4 {
        Some((spec_u32_from_le_bytes(s.subrange(0, 4)), tail(s, 4)))
    } else {
        None
    }
}

pub open spec fn parse_u64(s: Seq<u8>) -> Option<(u64, Seq<u8>)> {
    if s.len() >= 8 {
        Some((spec_u64_from_le_bytes(s.subrange(0, 8)), tail(s, 8)))
    } else {
        None
    }
}

pub open spec fn parse_u128(s: Seq<u8>) -> Option<(u128, Seq<u8>)> {
    if s.len() >= 16 {
        Some((spec_u128_from_le_bytes(s.subrange(0, 16)), tail(s, 16)))
    } else {
        None
    }
}

pub open spec fn parse_fixed32(s: Seq<u8>) -> Option<(Seq<u8>, Seq<u8>)> {
    if s.len() >= 32 {
        Some((s.subrange(0, 32), tail(s, 32)))
    } else {
        None
    }
}

pub open spec fn parse_option_bool(s: Seq<u8>) -> Option<(Option<bool>, Seq<u8>)> {
    if s.len() >= 1 && s[0] == 0 {
        Some((None, tail(s, 1)))
    } else if s.len() >= 1 && s[0] == 1 {
        match parse_bool(tail(s, 1)) {
            Some((b, rest)) => Some((Some(b), rest)),
            None => None,
        }
    } else {
        None
    }
}

/// Appends the four bytes of `x`. Calls `Encode::encode_to` of `u32`, which
/// writes `x.to_le_bytes()` to the buffer and leaves what the buffer held.
#[verifier::external_body]
pub(crate) fn put_u32(buf: &mut Vec<u8>, x: u32)
    ensures
        final(buf)@ == old(buf)@ + enc_u32(x),
{
    x.encode_to(buf);
}

/// Appends the eight bytes of `x`. Calls `Encode::encode_to` of `u64`, which
/// writes `x.to_le_bytes()` to the buffer and leaves what the buffer held.
#[verifier::external_body]
pub(crate) fn put_u64(buf: &mut Vec<u8>, x: u64)
    ensures
        final(buf)@ == old(buf)@ + enc_u64(x),
{
    x.encode_to(buf);
}

/// Reads a `u32` off the front. Calls `Decode::decode` of `u32` on the slice:
/// it fails when fewer than four bytes are there, and else takes four bytes,
/// returns `u32::from_le_bytes` of them and leaves the slice behind them.
#[verifier::external_body]
pub(crate) fn take_u32(input: &[u8]) -> (r: Option<(u32, &[u8])>)
    ensures
        match r {
            Some((x, rest)) => parse_u32(input@) == Some((x, rest@)),
            None => parse_u32(input@) is None,
        },
{
    let mut rest = input;
    match u32::decode(&mut rest) {
        Ok(x) => Some((x, rest)),
        Err(_) => None,
    }
}

/// Reads a `u64` off the front. Calls `Decode::decode` of `u64` on the slice:
/// it fails when fewer than eight bytes are there, and else takes eight bytes,
/// returns `u64::from_le_bytes` of them and leaves the slice behind them.
#[verifier::external_body]
pub(crate) fn take_u64(input: &[u8]) -> (r: Option<(u64, &[u8])>)
    ensures
        match r {
            Some((x, rest)) => parse_u64(input@) == Some((x, rest@)),
            None => parse_u64(input@) is None,
        },
{
    let mut rest = input;
    match u64::decode(&mut rest) {
        Ok(x) => Some((x, rest)),
        Err(_) => None,
    }
}

/// Reads a `u128` off the front. Calls `Decode::decode` of `u128` on the
/// slice: it fails when fewer than sixteen bytes are there, and else takes
/// sixteen bytes, returns `u128::from_le_bytes` of them and leaves the slice
/// behind them.
#[verifier::external_body]
pub(crate) fn take_u128(input: &[u8]) -> (r: Option<(u128, &[u8])>)
    ensures
        match r {
            Some((x, rest)) => parse_u128(input@) == Some((x, rest@)),
            None => parse_u128(input@) is None,
        },
{
    let mut rest = input;
    match u128::decode(&mut rest) {
        Ok(x) => Some((x, rest)),
        Err(_) => None,
    }
}

/// Appends a byte string. Calls `Encode::encode_to` of `[u8]`, which writes the
/// length in compact form and then the bytes, and which panics on a slice of
/// more than `u32::MAX` bytes.
#[verifier::external_body]
pub(crate) fn put_bytes(buf: &mut Vec<u8>, v: &[u8])
    requires
        v@.len() <= u32::MAX,
    ensures
        final(buf)@ == old(buf)@ + enc_bytes(v@),
{
    v.encode_to(buf);
}

/// Reads a byte string off the front. Calls `Decode::decode` of `Vec<u8>` on
/// the slice. It reads a compact length and accepts only the shortest form of
/// each length; then it takes that many bytes, and fails when fewer are
/// there. On success the slice is left behind the bytes taken.
#[verifier::external_body]
fn decode_bytes(input: &[u8]) -> (r: Option<(Vec<u8>, &[u8])>)
    ensures
        match r {
            Some((v, rest)) => v@.len() <= u32::MAX && input@ == enc_bytes(v@) + rest@,
            None => forall|n: u32| !frames(input@, n),
        },
{
    let mut rest = input;
    match Vec::<u8>::decode(&mut rest) {
        Ok(v) => Some((v, rest)),
        Err(_) => None,
    }
}

/// The compact form of a length is 1, 2, 4 or 5 bytes long, and the first
/// byte tells which.
pub proof fn lemma_compact_shape(n: u32)
    ensures
        enc_compact(n).len() == (if n < 0x40 {
            1nat
        } else if n < 0x4000 {
            2nat
        } else if n < 0x4000_0000 {
            4nat
        } else {
            5nat
        }),
        enc_compact(n)[0] % 4 == (if n < 0x40 {
            0int
        } else if n < 0x4000 {
            1int
        } else if n < 0x4000_0000 {
            2int
        } else {
            3int
        }),
{
    lemma_auto_spec_u32_to_from_le_bytes();
}

/// A byte sequence begins with the compact form of at most one length.
pub proof fn lemma_one_frame(s: Seq<u8>, a: u32, b: u32)
    requires
        frames(s, a),
        frames(s, b),
    ensures
        a == b,
{
    lemma_compact_shape(a);
    lemma_compact_shape(b);
    lemma_auto_spec_u32_to_from_le_bytes();
    let pa = enc_compact(a);
    let pb = enc_compact(b);
    assert(pa[0] == s.subrange(0, pa.len() as int)[0]);
    assert(pb[0] == s.subrange(0, pb.len() as int)[0]);
    assert(pa.len() == pb.len());
    assert(pa == pb);
    if a < 0x40 {
        assert(pa[0] == pb[0]);
    } else if a < 0x4000 {
        assert(pa[0] == pb[0] && pa[1] == pb[1]);
    } else if a < 0x4000_0000 {
        assert(pa[0] == pb[0] && pa[1] == pb[1] && pa[2] == pb[2] && pa[3] == pb[3]);
        let x = 4 * a + 2;
        let y = 4 * b + 2;
        assert(x / 65536 == (x / 256) / 256);
        assert(x / 16777216 == (x / 65536) / 256);
        assert(y / 65536 == (y / 256) / 256);
        assert(y / 16777216 == (y / 65536) / 256);
    } else {
        assert(pa.subrange(1, 5) =~= enc_u32(a));
        assert(pb.subrange(1, 5) =~= enc_u32(b));
    }
}

/// Reading a byte string back: what was encoded comes out, with the bytes
/// that followed it.
pub proof fn lemma_parse_bytes(v: Seq<u8>, rest: Seq<u8>)
    requires
        v.len() <= u32::MAX,
    ensures
        parse_bytes(enc_bytes(v) + rest) == Some((v, rest)),
{
    let s = enc_bytes(v) + rest;
    let n = v.len() as u32;
    let p = enc_compact(n);
    assert(s.subrange(0, p.len() as int) =~= p);
    assert(frames(s, n));
    let m = choose|m: u32| frames(s, m);
    lemma_one_frame(s, n, m);
    let k = p.len() as int;
    assert(s.subrange(k, k + n) =~= v);
    assert(tail(s, k + n) =~= rest);
}

/// Reads a byte string off the front.
pub(crate) fn take_bytes(input: &[u8]) -> (r: Option<(Vec<u8>, &[u8])>)
    ensures
        match r {
            Some((v, rest)) => parse_bytes(input@) == Some((v@, rest@)),
            None => parse_bytes(input@) is None,
        },
{
    match decode_bytes(input) {
        Some((v, rest)) => {
            proof {
                lemma_parse_bytes(v@, rest@);
            }
            Some((v, rest))
        },
        None => None,
    }
}

pub(crate) fn put_u8(buf: &mut Vec<u8>, x: u8)
    ensures
        final(buf)@ == old(buf)@ + enc_u8(x),
{
    buf.push(x);
    assert(buf@ =~= old(buf)@ + enc_u8(x));
}

pub(crate) fn put_bool(buf: &mut Vec<u8>, b: bool)
    ensures
        final(buf)@ == old(buf)@ + enc_bool(b),
{
    if b {
        buf.push(1);
    } else {
        buf.push(0);
    }
    assert(buf@ =~= old(buf)@ + enc_bool(b));
}

pub(crate) fn put_option_bool(buf: &mut Vec<u8>, o: Option<bool>)
    ensures
        final(buf)@ == old(buf)@ + enc_option_bool(o),
{
    match o {
        None => {
            buf.push(0);
            assert(buf@ =~= old(buf)@ + enc_option_bool(o));
        },
        Some(b) => {
            buf.push(1);
            put_bool(buf, b);
            assert(buf@ =~= old(buf)@ + enc_option_bool(o));
        },
    }
}

pub(crate) fn put_fixed32(buf: &mut Vec<u8>, a: &[u8; 32])
    ensures
        final(buf)@ == old(buf)@ + enc_fixed32(a@),
{
    let mut i: usize = 0;
    while i < 32
        invariant
            i <= 32,
            buf@ == old(buf)@ + a@.subrange(0, i as int),
        decreases 32 - i,
    {
        buf.push(a[i]);
        i += 1;
        assert(buf@ =~= old(buf)@ + a@.subrange(0, i as int));
    }
    assert(a@.subrange(0, 32) =~= a@);
}

pub(crate) fn take_u8(input: &[u8]) -> (r: Option<(u8, &[u8])>)
    ensures
        match r {
            Some((x, rest)) => parse_u8(input@) == Some((x, rest@)),
            None => parse_u8(input@) is None,
        },
{
    if input.len() >= 1 {
        let (head, rest) = input.split_at(1);
        Some((head[0], rest))
    } else {
        None
    }
}

pub(crate) fn take_bool(input: &[u8]) -> (r: Option<(bool, &[u8])>)
    ensures
        match r {
            Some((b, rest)) => parse_bool(input@) == Some((b, rest@)),
            None => parse_bool(input@) is None,
        },
{
    match take_u8(input) {
        Some((x, rest)) => {
            if x == 0 {
                Some((false, rest))
            } else if x == 1 {
                Some((true, rest))
            } else {
                None
            }
        },
        None => None,
    }
}

pub(crate) fn take_fixed32(input: &[u8]) -> (r: Option<([u8; 32], &[u8])>)
    ensures
        match r {
            Some((a, rest)) => parse_fixed32(input@) == Some((a@, rest@)),
            None => parse_fixed32(input@) is None,
        },
{
    if input.len() < 32 {
        return None;
    }
    let (head, rest) = input.split_at(32);
    let mut bytes = [0u8; 32];
    let mut i: usize = 0;
    while i < 32
        invariant
            i <= 32,
            head@.len() == 32,
            forall|j: int| 0 <= j < i ==> bytes@[j] == head@[j],
        decreases 32 - i,
    {
        bytes[i] = head[i];
        i += 1;
    }
    assert(bytes@ =~= head@);
    Some((bytes, rest))
}

/// Reading back what was written, for each single value: the value comes
/// out, with the bytes that followed it.
pub proof fn lemma_parse_u8(x: u8, rest: Seq<u8>)
    ensures
        parse_u8(enc_u8(x) + rest) == Some((x, rest)),
{
    assert(tail(enc_u8(x) + rest, 1) =~= rest);
}

pub proof fn lemma_parse_bool(b: bool, rest: Seq<u8>)
    ensures
        parse_bool(enc_bool(b) + rest) == Some((b, rest)),
{
    assert(tail(enc_bool(b) + rest, 1) =~= rest);
}

pub proof fn lemma_parse_option_bool(o: Option<bool>, rest: Seq<u8>)
    ensures
        parse_option_bool(enc_option_bool(o) + rest) == Some((o, rest)),
{
    let s = enc_option_bool(o) + rest;
    match o {
        None => {
            assert(tail(s, 1) =~= rest);
        },
        Some(b) => {
            assert(tail(s, 1) =~= enc_bool(b) + rest);
            lemma_parse_bool(b, rest);
        },
    }
}

pub proof fn lemma_parse_u32(x: u32, rest: Seq<u8>)
    ensures
        parse_u32(enc_u32(x) + rest) == Some((x, rest)),
{
    lemma_auto_spec_u32_to_from_le_bytes();
    let s = enc_u32(x) + rest;
    assert(s.subrange(0, 4) =~= enc_u32(x));
    assert(tail(s, 4) =~= rest);
}

pub proof fn lemma_parse_u64(x: u64, rest: Seq<u8>)
    ensures
        parse_u64(enc_u64(x) + rest) == Some((x, rest)),
{
    lemma_auto_spec_u64_to_from_le_bytes();
    let s = enc_u64(x) + rest;
    assert(s.subrange(0, 8) =~= enc_u64(x));
    assert(tail(s, 8) =~= rest);
}

pub proof fn lemma_parse_u128(x: u128, rest: Seq<u8>)
    ensures
        parse_u128(enc_u128(x) + rest) == Some((x, rest)),
{
    lemma_auto_spec_u128_to_from_le_bytes();
    let s = enc_u128(x) + rest;
    assert(s.subrange(0, 16) =~= enc_u128(x));
    assert(tail(s, 16) =~= rest);
}

pub proof fn lemma_parse_fixed32(a: Seq<u8>, rest: Seq<u8>)
    requires
        a.len() == 32,
    ensures
        parse_fixed32(enc_fixed32(a) + rest) == Some((a, rest)),
{
    let s = enc_fixed32(a) + rest;
    assert(s.subrange(0, 32) =~= a);
    assert(tail(s, 32) =~= rest);
}

} // verus!

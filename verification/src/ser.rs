//! Canonical binary codec for the coinbase artifacts.
//!
//! Encoding is deterministic; decoding is total, consumes the whole
//! buffer, and returns `decode(encode(v)) == v` for every well-formed
//! value. The round-trip laws are stated and proved at the end.

use vstd::prelude::*;
use crate::types::{
    KernelFeatures, KeyIdentifier, Output, OutputFeatures, OutputV, TxKernel, TxKernelV,
};

verus! {

/// Decoding failure: the bytes are no canonical encoding of the type.
#[derive(Clone, Copy, Debug, PartialEq, Eq, Structural)]
pub enum CodecError {
    Malformed,
}

/// Serialized width of an output.
pub const OUTPUT_SER_LEN: usize = 34;

/// Serialized width of a kernel.
pub const KERNEL_SER_LEN: usize = 114;

/// Serialized width of a key identifier.
pub const KEY_ID_SER_LEN: usize = 17;

/// Big-endian bytes of a `u32`.
pub open spec fn be_bytes_u32(x: u32) -> Seq<u8> {
    seq![
        ((x >> 24) & 0xff) as u8,
        ((x >> 16) & 0xff) as u8,
        ((x >> 8) & 0xff) as u8,
        (x & 0xff) as u8,
    ]
}

/// The `u32` four big-endian bytes denote.
pub open spec fn u32_from_be(b: Seq<u8>) -> u32 {
    (((b[0] as u32) << 24) | ((b[1] as u32) << 16) | ((b[2] as u32) << 8) | (b[3] as u32)) as u32
}

/// Big-endian bytes of a `u64`.
pub open spec fn be_bytes_u64(x: u64) -> Seq<u8> {
    seq![
        ((x >> 56) & 0xff) as u8,
        ((x >> 48) & 0xff) as u8,
        ((x >> 40) & 0xff) as u8,
        ((x >> 32) & 0xff) as u8,
        ((x >> 24) & 0xff) as u8,
        ((x >> 16) & 0xff) as u8,
        ((x >> 8) & 0xff) as u8,
        (x & 0xff) as u8,
    ]
}

/// The `u64` eight big-endian bytes denote.
pub open spec fn u64_from_be(b: Seq<u8>) -> u64 {
    (((b[0] as u64) << 56) | ((b[1] as u64) << 48) | ((b[2] as u64) << 40)
        | ((b[3] as u64) << 32) | ((b[4] as u64) << 24) | ((b[5] as u64) << 16)
        | ((b[6] as u64) << 8) | (b[7] as u64)) as u64
}

/// Reading back the big-endian bytes of a `u32` yields the value.
pub proof fn lemma_be_u32_round_trip(x: u32)
    ensures
        u32_from_be(be_bytes_u32(x)) == x,
{
    assert(((((x >> 24) & 0xff) as u8 as u32) << 24 | (((x >> 16) & 0xff) as u8 as u32) << 16
        | (((x >> 8) & 0xff) as u8 as u32) << 8 | ((x & 0xff) as u8 as u32)) == x)
        by (bit_vector);
}

/// Reading back the big-endian bytes of a `u64` yields the value.
pub proof fn lemma_be_u64_round_trip(x: u64)
    ensures
        u64_from_be(be_bytes_u64(x)) == x,
{
    assert(((((x >> 56) & 0xff) as u8 as u64) << 56 | (((x >> 48) & 0xff) as u8 as u64) << 48
        | (((x >> 40) & 0xff) as u8 as u64) << 40 | (((x >> 32) & 0xff) as u8 as u64) << 32
        | (((x >> 24) & 0xff) as u8 as u64) << 24 | (((x >> 16) & 0xff) as u8 as u64) << 16
        | (((x >> 8) & 0xff) as u8 as u64) << 8 | ((x & 0xff) as u8 as u64)) == x)
        by (bit_vector);
}

/// Appends the big-endian bytes of `x`.
fn push_be_u32(out: &mut Vec<u8>, x: u32)
    ensures
        final(out)@ == old(out)@ + be_bytes_u32(x),
{
    assert((x >> 24) & 0xff < 256 && (x >> 16) & 0xff < 256 && (x >> 8) & 0xff < 256 && x
        & 0xff < 256) by (bit_vector);
    out.push(((x >> 24) & 0xff) as u8);
    out.push(((x >> 16) & 0xff) as u8);
    out.push(((x >> 8) & 0xff) as u8);
    out.push((x & 0xff) as u8);
    assert(out@ =~= old(out)@ + be_bytes_u32(x));
}

/// Appends the big-endian bytes of `x`.
fn push_be_u64(out: &mut Vec<u8>, x: u64)
    ensures
        final(out)@ == old(out)@ + be_bytes_u64(x),
{
    assert((x >> 56) & 0xff < 256 && (x >> 48) & 0xff < 256 && (x >> 40) & 0xff < 256 && (x >> 32)
        & 0xff < 256 && (x >> 24) & 0xff < 256 && (x >> 16) & 0xff < 256 && (x >> 8) & 0xff < 256
        && x & 0xff < 256) by (bit_vector);
    out.push(((x >> 56) & 0xff) as u8);
    out.push(((x >> 48) & 0xff) as u8);
    out.push(((x >> 40) & 0xff) as u8);
    out.push(((x >> 32) & 0xff) as u8);
    out.push(((x >> 24) & 0xff) as u8);
    out.push(((x >> 16) & 0xff) as u8);
    out.push(((x >> 8) & 0xff) as u8);
    out.push((x & 0xff) as u8);
    assert(out@ =~= old(out)@ + be_bytes_u64(x));
}

/// Appends the bytes `v[from..to]`.
fn push_sub(out: &mut Vec<u8>, v: &Vec<u8>, from: usize, to: usize)
    requires
        from <= to <= v@.len(),
    ensures
        final(out)@ == old(out)@ + v@.subrange(from as int, to as int),
{
    let mut i: usize = from;
    while i < to
        invariant
            from <= i <= to <= v@.len(),
            out@ == old(out)@ + v@.subrange(from as int, i as int),
        decreases to - i,
    {
        out.push(v[i]);
        assert(out@ =~= old(out)@ + v@.subrange(from as int, i + 1));
        i = i + 1;
    }
}

/// The bytes `v[from..to]` as a fresh vector.
fn bytes_sub(v: &Vec<u8>, from: usize, to: usize) -> (r: Vec<u8>)
    requires
        from <= to <= v@.len(),
    ensures
        r@ == v@.subrange(from as int, to as int),
{
    let mut out: Vec<u8> = Vec::new();
    push_sub(&mut out, v, from, to);
    out
}

/// Reads the `u64` at `v[off..off + 8]`, big endian.
fn read_be_u64(v: &Vec<u8>, off: usize) -> (r: u64)
    requires
        off + 8 <= v@.len(),
    ensures
        r == u64_from_be(v@.subrange(off as int, off + 8)),
{
    let _n: usize = v.len();
    proof {
        assert(v@.len() <= usize::MAX);
    }
    let r = ((v[off] as u64) << 56) | ((v[off + 1] as u64) << 48) | ((v[off + 2] as u64) << 40)
        | ((v[off + 3] as u64) << 32) | ((v[off + 4] as u64) << 24) | ((v[off + 5] as u64) << 16)
        | ((v[off + 6] as u64) << 8) | (v[off + 7] as u64);
    proof {
        let b = v@.subrange(off as int, off + 8);
        assert(b[0] == v@[off as int] && b[1] == v@[off + 1] && b[2] == v@[off + 2] && b[3] == v@[
            off + 3] && b[4] == v@[off + 4] && b[5] == v@[off + 5] && b[6] == v@[off + 6] && b[7]
            == v@[off + 7]);
    }
    r
}

/// Reads the `u32` at `v[off..off + 4]`, big endian.
fn read_be_u32(v: &Vec<u8>, off: usize) -> (r: u32)
    requires
        off + 4 <= v@.len(),
    ensures
        r == u32_from_be(v@.subrange(off as int, off + 4)),
{
    let _n: usize = v.len();
    proof {
        assert(v@.len() <= usize::MAX);
    }
    let r = ((v[off] as u32) << 24) | ((v[off + 1] as u32) << 16) | ((v[off + 2] as u32) << 8) | (
    v[off + 3] as u32);
    proof {
        let b = v@.subrange(off as int, off + 4);
        assert(b[0] == v@[off as int] && b[1] == v@[off + 1] && b[2] == v@[off + 2] && b[3] == v@[
            off + 3]);
    }
    r
}

/// Canonical byte of an output feature flag.
pub open spec fn output_feature_byte(f: OutputFeatures) -> u8 {
    match f {
        OutputFeatures::Plain => 0,
        OutputFeatures::Coinbase => 1,
    }
}

/// Canonical byte of a kernel feature flag.
pub open spec fn kernel_feature_byte(f: KernelFeatures) -> u8 {
    match f {
        KernelFeatures::Plain => 0,
        KernelFeatures::Coinbase => 1,
        KernelFeatures::HeightLocked => 2,
    }
}

/// Canonical encoding of an output: feature byte, then the commitment.
pub open spec fn spec_encode_output(v: OutputV) -> Seq<u8> {
    seq![output_feature_byte(v.features)] + v.commit
}

/// Canonical decoding of an output, total over all byte sequences.
pub open spec fn spec_decode_output(b: Seq<u8>) -> Option<OutputV> {
    if b.len() == OUTPUT_SER_LEN && b[0] <= 1 {
        Some(
            OutputV {
                features: if b[0] == 0 {
                    OutputFeatures::Plain
                } else {
                    OutputFeatures::Coinbase
                },
                commit: b.subrange(1, OUTPUT_SER_LEN as int),
            },
        )
    } else {
        None
    }
}

/// Canonical encoding of a kernel: feature byte, fee, lock height,
/// excess, signature.
pub open spec fn spec_encode_kernel(v: TxKernelV) -> Seq<u8> {
    seq![kernel_feature_byte(v.features)] + be_bytes_u64(v.fee) + be_bytes_u64(v.lock_height)
        + v.excess + v.excess_sig
}

/// Canonical decoding of a kernel, total over all byte sequences.
pub open spec fn spec_decode_kernel(b: Seq<u8>) -> Option<TxKernelV> {
    if b.len() == KERNEL_SER_LEN && b[0] <= 2 {
        Some(
            TxKernelV {
                features: if b[0] == 0 {
                    KernelFeatures::Plain
                } else if b[0] == 1 {
                    KernelFeatures::Coinbase
                } else {
                    KernelFeatures::HeightLocked
                },
                fee: u64_from_be(b.subrange(1, 9)),
                lock_height: u64_from_be(b.subrange(9, 17)),
                excess: b.subrange(17, 50),
                excess_sig: b.subrange(50, KERNEL_SER_LEN as int),
            },
        )
    } else {
        None
    }
}

/// Canonical encoding of a key identifier: depth byte, then the four
/// path segments.
pub open spec fn spec_encode_key_id(k: KeyIdentifier) -> Seq<u8> {
    seq![k.depth] + be_bytes_u32(k.path0) + be_bytes_u32(k.path1) + be_bytes_u32(k.path2)
        + be_bytes_u32(k.path3)
}

/// Canonical decoding of a key identifier, total over all byte
/// sequences.
pub open spec fn spec_decode_key_id(b: Seq<u8>) -> Option<KeyIdentifier> {
    if b.len() == KEY_ID_SER_LEN {
        Some(
            KeyIdentifier {
                depth: b[0],
                path0: u32_from_be(b.subrange(1, 5)),
                path1: u32_from_be(b.subrange(5, 9)),
                path2: u32_from_be(b.subrange(9, 13)),
                path3: u32_from_be(b.subrange(13, KEY_ID_SER_LEN as int)),
            },
        )
    } else {
        None
    }
}

/// Encodes an output canonically.
pub fn encode_output(o: &Output) -> (r: Vec<u8>)
    ensures
        r@ == spec_encode_output(o@),
{
    let mut out: Vec<u8> = Vec::new();
    match o.features {
        OutputFeatures::Plain => out.push(0u8),
        OutputFeatures::Coinbase => out.push(1u8),
    }
    push_sub(&mut out, &o.commit, 0, o.commit.len());
    proof {
        assert(o.commit@.subrange(0, o.commit@.len() as int) =~= o.commit@);
        assert(out@ =~= spec_encode_output(o@));
    }
    out
}

/// Decodes an output; `Err` exactly on bytes that are no canonical
/// output encoding.
pub fn decode_output(v: &Vec<u8>) -> (r: Result<Output, CodecError>)
    ensures
        r matches Ok(o) ==> spec_decode_output(v@) == Some(o@) && o.wf(),
        r is Err <==> spec_decode_output(v@) is None,
        r matches Err(e) ==> e == CodecError::Malformed,
{
    if v.len() != OUTPUT_SER_LEN {
        return Err(CodecError::Malformed);
    }
    let features = if v[0] == 0 {
        OutputFeatures::Plain
    } else if v[0] == 1 {
        OutputFeatures::Coinbase
    } else {
        return Err(CodecError::Malformed);
    };
    let commit = bytes_sub(v, 1, OUTPUT_SER_LEN);
    Ok(Output { features, commit })
}

/// Encodes a kernel canonically.
pub fn encode_kernel(k: &TxKernel) -> (r: Vec<u8>)
    ensures
        r@ == spec_encode_kernel(k@),
{
    let mut out: Vec<u8> = Vec::new();
    match k.features {
        KernelFeatures::Plain => out.push(0u8),
        KernelFeatures::Coinbase => out.push(1u8),
        KernelFeatures::HeightLocked => out.push(2u8),
    }
    push_be_u64(&mut out, k.fee);
    push_be_u64(&mut out, k.lock_height);
    push_sub(&mut out, &k.excess, 0, k.excess.len());
    push_sub(&mut out, &k.excess_sig, 0, k.excess_sig.len());
    proof {
        assert(k.excess@.subrange(0, k.excess@.len() as int) =~= k.excess@);
        assert(k.excess_sig@.subrange(0, k.excess_sig@.len() as int) =~= k.excess_sig@);
        assert(out@ =~= spec_encode_kernel(k@));
    }
    out
}

/// Decodes a kernel; `Err` exactly on bytes that are no canonical
/// kernel encoding.
pub fn decode_kernel(v: &Vec<u8>) -> (r: Result<TxKernel, CodecError>)
    ensures
        r matches Ok(k) ==> spec_decode_kernel(v@) == Some(k@) && k.wf(),
        r is Err <==> spec_decode_kernel(v@) is None,
        r matches Err(e) ==> e == CodecError::Malformed,
{
    if v.len() != KERNEL_SER_LEN {
        return Err(CodecError::Malformed);
    }
    let features = if v[0] == 0 {
        KernelFeatures::Plain
    } else if v[0] == 1 {
        KernelFeatures::Coinbase
    } else if v[0] == 2 {
        KernelFeatures::HeightLocked
    } else {
        return Err(CodecError::Malformed);
    };
    let fee = read_be_u64(v, 1);
    let lock_height = read_be_u64(v, 9);
    let excess = bytes_sub(v, 17, 50);
    let excess_sig = bytes_sub(v, 50, KERNEL_SER_LEN);
    Ok(TxKernel { features, fee, lock_height, excess, excess_sig })
}

/// Encodes a key identifier canonically.
pub fn encode_key_id(k: &KeyIdentifier) -> (r: Vec<u8>)
    ensures
        r@ == spec_encode_key_id(*k),
{
    let mut out: Vec<u8> = Vec::new();
    out.push(k.depth);
    push_be_u32(&mut out, k.path0);
    push_be_u32(&mut out, k.path1);
    push_be_u32(&mut out, k.path2);
    push_be_u32(&mut out, k.path3);
    assert(out@ =~= spec_encode_key_id(*k));
    out
}

/// Decodes a key identifier; `Err` exactly on bytes of the wrong width.
pub fn decode_key_id(v: &Vec<u8>) -> (r: Result<KeyIdentifier, CodecError>)
    ensures
        r matches Ok(k) ==> spec_decode_key_id(v@) == Some(k),
        r is Err <==> spec_decode_key_id(v@) is None,
        r matches Err(e) ==> e == CodecError::Malformed,
{
    if v.len() != KEY_ID_SER_LEN {
        return Err(CodecError::Malformed);
    }
    let depth = v[0];
    let path0 = read_be_u32(v, 1);
    let path1 = read_be_u32(v, 5);
    let path2 = read_be_u32(v, 9);
    let path3 = read_be_u32(v, 13);
    Ok(KeyIdentifier { depth, path0, path1, path2, path3 })
}

/// Round-trip law: decoding the canonical encoding of any well-formed
/// output yields that output.
pub proof fn lemma_output_round_trip(v: OutputV)
    requires
        v.wf(),
    ensures
        spec_decode_output(spec_encode_output(v)) == Some(v),
{
    let e = spec_encode_output(v);
    assert(e.len() == OUTPUT_SER_LEN);
    assert(e[0] == output_feature_byte(v.features));
    assert(e.subrange(1, OUTPUT_SER_LEN as int) =~= v.commit);
}

/// Round-trip law: decoding the canonical encoding of any well-formed
/// kernel yields that kernel.
pub proof fn lemma_kernel_round_trip(v: TxKernelV)
    requires
        v.wf(),
    ensures
        spec_decode_kernel(spec_encode_kernel(v)) == Some(v),
{
    let e = spec_encode_kernel(v);
    assert(e.len() == KERNEL_SER_LEN);
    assert(e[0] == kernel_feature_byte(v.features));
    assert(e.subrange(1, 9) =~= be_bytes_u64(v.fee));
    assert(e.subrange(9, 17) =~= be_bytes_u64(v.lock_height));
    assert(e.subrange(17, 50) =~= v.excess);
    assert(e.subrange(50, KERNEL_SER_LEN as int) =~= v.excess_sig);
    lemma_be_u64_round_trip(v.fee);
    lemma_be_u64_round_trip(v.lock_height);
}

/// Round-trip law: decoding the canonical encoding of any key
/// identifier yields that identifier.
pub proof fn lemma_key_id_round_trip(k: KeyIdentifier)
    ensures
        spec_decode_key_id(spec_encode_key_id(k)) == Some(k),
{
    let e = spec_encode_key_id(k);
    assert(e.len() == KEY_ID_SER_LEN);
    assert(e[0] == k.depth);
    assert(e.subrange(1, 5) =~= be_bytes_u32(k.path0));
    assert(e.subrange(5, 9) =~= be_bytes_u32(k.path1));
    assert(e.subrange(9, 13) =~= be_bytes_u32(k.path2));
    assert(e.subrange(13, KEY_ID_SER_LEN as int) =~= be_bytes_u32(k.path3));
    lemma_be_u32_round_trip(k.path0);
    lemma_be_u32_round_trip(k.path1);
    lemma_be_u32_round_trip(k.path2);
    lemma_be_u32_round_trip(k.path3);
}

} // verus!

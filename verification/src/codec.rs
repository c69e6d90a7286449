//! Canonical byte encoding of the messages that signers authorize.
//!
//! A signed request is bound to one protocol version, one operation name, one
//! deployment (the network value) and one exact argument tuple. Within one
//! deployment the encoding is injective in the arguments, so a signature over
//! one request cannot be read as a signature over another.

use vstd::prelude::*;
use crate::bytes::push_all;

verus! {

/// Tag naming the first (and only) version of the canonical payload layout.
pub const PAYLOAD_VERSION: u8 = 0;

/// The little-endian bytes of a 64-bit integer.
pub open spec fn u64_bytes(n: u64) -> Seq<u8> {
    seq![
        (n % 256) as u8,
        ((n / 256) % 256) as u8,
        ((n / 256 / 256) % 256) as u8,
        ((n / 256 / 256 / 256) % 256) as u8,
        ((n / 256 / 256 / 256 / 256) % 256) as u8,
        ((n / 256 / 256 / 256 / 256 / 256) % 256) as u8,
        ((n / 256 / 256 / 256 / 256 / 256 / 256) % 256) as u8,
        ((n / 256 / 256 / 256 / 256 / 256 / 256 / 256) % 256) as u8,
    ]
}

/// Writes `n` as its eight little-endian bytes.
pub fn u64_to_bytes(n: u64) -> (r: Vec<u8>)
    ensures
        r@ == u64_bytes(n),
{
    let mut out: Vec<u8> = Vec::new();
    out.push((n % 256) as u8);
    let x1: u64 = n / 256;
    out.push((x1 % 256) as u8);
    let x2: u64 = x1 / 256;
    out.push((x2 % 256) as u8);
    let x3: u64 = x2 / 256;
    out.push((x3 % 256) as u8);
    let x4: u64 = x3 / 256;
    out.push((x4 % 256) as u8);
    let x5: u64 = x4 / 256;
    out.push((x5 % 256) as u8);
    let x6: u64 = x5 / 256;
    out.push((x6 % 256) as u8);
    let x7: u64 = x6 / 256;
    out.push((x7 % 256) as u8);
    proof {
        assert(out@ =~= u64_bytes(n));
    }
    out
}

/// Two integers with the same little-endian bytes are the same integer.
pub proof fn lemma_u64_bytes_injective(a: u64, b: u64)
    requires
        u64_bytes(a) == u64_bytes(b),
    ensures
        a == b,
{
    let a0 = a as int;
    let b0 = b as int;
    let a1 = a0 / 256;
    let b1 = b0 / 256;
    let a2 = a1 / 256;
    let b2 = b1 / 256;
    let a3 = a2 / 256;
    let b3 = b2 / 256;
    let a4 = a3 / 256;
    let b4 = b3 / 256;
    let a5 = a4 / 256;
    let b5 = b4 / 256;
    let a6 = a5 / 256;
    let b6 = b5 / 256;
    let a7 = a6 / 256;
    let b7 = b6 / 256;
    assert(u64_bytes(a)[0] == u64_bytes(b)[0]);
    assert(u64_bytes(a)[1] == u64_bytes(b)[1]);
    assert(u64_bytes(a)[2] == u64_bytes(b)[2]);
    assert(u64_bytes(a)[3] == u64_bytes(b)[3]);
    assert(u64_bytes(a)[4] == u64_bytes(b)[4]);
    assert(u64_bytes(a)[5] == u64_bytes(b)[5]);
    assert(u64_bytes(a)[6] == u64_bytes(b)[6]);
    assert(u64_bytes(a)[7] == u64_bytes(b)[7]);
    assert(a0 % 256 == b0 % 256);
    assert(a1 % 256 == b1 % 256);
    assert(a2 % 256 == b2 % 256);
    assert(a3 % 256 == b3 % 256);
    assert(a4 % 256 == b4 % 256);
    assert(a5 % 256 == b5 % 256);
    assert(a6 % 256 == b6 % 256);
    assert(a7 % 256 == b7 % 256);
    assert(a7 < 256 && b7 < 256);
    assert(a7 == b7);
    assert(a6 == b6);
    assert(a5 == b5);
    assert(a4 == b4);
    assert(a3 == b3);
    assert(a2 == b2);
    assert(a1 == b1);
    assert(a0 == b0);
}

/// The canonical payload: the version tag, the length-prefixed operation name,
/// the length-prefixed network value, then the argument bytes.
pub open spec fn payload(function: Seq<u8>, network: Seq<u8>, args: Seq<u8>) -> Seq<u8> {
    seq![PAYLOAD_VERSION] + u64_bytes(function.len() as u64) + function
        + u64_bytes(network.len() as u64) + network + args
}

/// Builds the canonical payload of one operation.
pub fn build_payload(function: &Vec<u8>, network: &Vec<u8>, args: &Vec<u8>) -> (r: Vec<u8>)
    ensures
        r@ == payload(function@, network@, args@),
{
    let mut out: Vec<u8> = Vec::new();
    out.push(PAYLOAD_VERSION);
    let flen = u64_to_bytes(function.len() as u64);
    push_all(&mut out, &flen);
    push_all(&mut out, function);
    let nlen = u64_to_bytes(network.len() as u64);
    push_all(&mut out, &nlen);
    push_all(&mut out, network);
    push_all(&mut out, args);
    proof {
        assert(out@ =~= payload(function@, network@, args@));
    }
    out
}

/// The operation name under which identity writes are authorized, as bytes.
pub open spec fn write_iden_name() -> Seq<u8> {
    seq![119u8, 114u8, 105u8, 116u8, 101u8, 95u8, 105u8, 100u8, 101u8, 110u8]
}

/// Writes the operation name of identity writes.
pub fn write_iden_name_bytes() -> (r: Vec<u8>)
    ensures
        r@ == write_iden_name(),
{
    let mut out: Vec<u8> = Vec::new();
    out.push(119u8);
    out.push(114u8);
    out.push(105u8);
    out.push(116u8);
    out.push(101u8);
    out.push(95u8);
    out.push(105u8);
    out.push(100u8);
    out.push(101u8);
    out.push(110u8);
    proof {
        assert(out@ =~= write_iden_name());
    }
    out
}

/// The signed argument tuple of an identity write: the signer's identity, the
/// nonce, and the target key, in that order.
pub open spec fn write_iden_args(signer: Seq<u8>, nonce: u64, key: Seq<u8>) -> Seq<u8> {
    signer + u64_bytes(nonce) + key
}

/// The full canonical message a signer authorizes for one identity write.
pub open spec fn write_iden_payload(
    network: Seq<u8>,
    signer: Seq<u8>,
    nonce: u64,
    key: Seq<u8>,
) -> Seq<u8> {
    payload(write_iden_name(), network, write_iden_args(signer, nonce, key))
}

/// Builds the canonical message of one identity write, for signing or for
/// verification.
pub fn build_write_iden_payload(
    network: &Vec<u8>,
    signer: &Vec<u8>,
    nonce: u64,
    key: &Vec<u8>,
) -> (r: Vec<u8>)
    ensures
        r@ == write_iden_payload(network@, signer@, nonce, key@),
{
    let name = write_iden_name_bytes();
    let mut args: Vec<u8> = Vec::new();
    push_all(&mut args, signer);
    let nb = u64_to_bytes(nonce);
    push_all(&mut args, &nb);
    push_all(&mut args, key);
    proof {
        assert(args@ =~= write_iden_args(signer@, nonce, key@));
    }
    build_payload(&name, network, &args)
}

/// Within one deployment, the canonical message pins every signed argument:
/// equal messages can only come from the same signer, nonce and key.
pub proof fn lemma_write_iden_payload_injective(
    network: Seq<u8>,
    s1: Seq<u8>,
    n1: u64,
    k1: Seq<u8>,
    s2: Seq<u8>,
    n2: u64,
    k2: Seq<u8>,
)
    requires
        s1.len() == 32,
        k1.len() == 32,
        s2.len() == 32,
        k2.len() == 32,
        write_iden_payload(network, s1, n1, k1) == write_iden_payload(network, s2, n2, k2),
    ensures
        s1 == s2,
        n1 == n2,
        k1 == k2,
{
    let pre = seq![PAYLOAD_VERSION] + u64_bytes(write_iden_name().len() as u64)
        + write_iden_name() + u64_bytes(network.len() as u64) + network;
    let l = pre.len() as int;
    let p1 = write_iden_payload(network, s1, n1, k1);
    let p2 = write_iden_payload(network, s2, n2, k2);
    assert(p1 =~= pre + s1 + u64_bytes(n1) + k1);
    assert(p2 =~= pre + s2 + u64_bytes(n2) + k2);
    assert forall|i: int| 0 <= i < 32 implies s1[i] == s2[i] by {
        assert(p1[l + i] == s1[i]);
        assert(p2[l + i] == s2[i]);
    }
    assert(s1 =~= s2);
    assert forall|i: int| 0 <= i < 8 implies u64_bytes(n1)[i] == u64_bytes(n2)[i] by {
        assert(p1[l + 32 + i] == u64_bytes(n1)[i]);
        assert(p2[l + 32 + i] == u64_bytes(n2)[i]);
    }
    assert(u64_bytes(n1) =~= u64_bytes(n2));
    lemma_u64_bytes_injective(n1, n2);
    assert forall|i: int| 0 <= i < 32 implies k1[i] == k2[i] by {
        assert(p1[l + 40 + i] == k1[i]);
        assert(p2[l + 40 + i] == k2[i]);
    }
    assert(k1 =~= k2);
}

} // verus!

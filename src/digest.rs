use vstd::prelude::*;
use soroban_sdk::Bytes;


verus! {

/// soroban_sdk's host environment, opaque here: it is only handed on to the
/// host's hash function.
#[verifier::external_type_specification]
#[verifier::external_body]
pub struct ExEnv(soroban_sdk::Env);

/// The SHA-256 digest of a byte string.
pub uninterp spec fn sha256_of(data: Seq<u8>) -> Seq<u8>;

/// Relies on soroban_sdk's `Bytes::from_slice`, which copies the bytes into the
/// host, and `Crypto::sha256`, which returns their SHA-256 as a `Hash<32>`:
/// 32 bytes that depend on the input bytes alone.
#[verifier::external_body]
pub(crate) fn sha256(env: &soroban_sdk::Env, data: &Vec<u8>) -> (r: Vec<u8>)
    ensures
        r@ == sha256_of(data@),
        r@.len() == 32,
{
    let bytes = Bytes::from_slice(env, data.as_slice());
    env.crypto().sha256(&bytes).to_array().to_vec()
}

/// Big-endian encoding of a 64-bit integer.
pub open spec fn be_bytes_u64(x: u64) -> Seq<u8> {
    seq![
        (x >> 56u64) as u8, (x >> 48u64) as u8, (x >> 40u64) as u8, (x >> 32u64) as u8,
        (x >> 24u64) as u8, (x >> 16u64) as u8, (x >> 8u64) as u8, x as u8,
    ]
}

/// Big-endian encoding of a 32-bit integer.
pub open spec fn be_bytes_u32(x: u32) -> Seq<u8> {
    seq![(x >> 24u32) as u8, (x >> 16u32) as u8, (x >> 8u32) as u8, x as u8]
}

/// The unsigned integer that the first eight bytes of `d` spell, big-endian.
pub open spec fn be_prefix_value(d: Seq<u8>) -> int {
    d[0] as int * 0x100_0000_0000_0000 + d[1] as int * 0x1_0000_0000_0000
        + d[2] as int * 0x100_0000_0000 + d[3] as int * 0x1_0000_0000
        + d[4] as int * 0x100_0000 + d[5] as int * 0x1_0000 + d[6] as int * 0x100
        + d[7] as int
}

/// What a participant commits to: `secret ‖ identity ‖ round_id` (big-endian).
pub open spec fn commit_preimage(secret: Seq<u8>, who: Seq<u8>, round_id: u64) -> Seq<u8> {
    secret + who + be_bytes_u64(round_id)
}

/// The commit digest of a secret for one identity in one round.
pub open spec fn commit_digest(secret: Seq<u8>, who: Seq<u8>, round_id: u64) -> Seq<u8> {
    sha256_of(commit_preimage(secret, who, round_id))
}

/// The zero digest that the fold of reveals starts from.
pub open spec fn zero_digest() -> Seq<u8> {
    Seq::new(32, |i: int| 0u8)
}

pub(crate) fn push_all(dst: &mut Vec<u8>, src: &Vec<u8>)
    ensures
        final(dst)@ == old(dst)@ + src@,
{
    let mut i: usize = 0;
    while i < src.len()
        invariant
            0 <= i <= src@.len(),
            dst@ == old(dst)@ + src@.subrange(0, i as int),
        decreases src@.len() - i,
    {
        dst.push(src[i]);
        i = i + 1;
        assert(dst@ =~= old(dst)@ + src@.subrange(0, i as int));
    }
    assert(src@.subrange(0, src@.len() as int) =~= src@);
}

pub(crate) fn copy_bytes(src: &Vec<u8>) -> (r: Vec<u8>)
    ensures
        r@ == src@,
{
    let mut r: Vec<u8> = Vec::new();
    push_all(&mut r, src);
    assert(r@ =~= src@);
    r
}

/// Whether two byte strings are equal.
pub fn same_bytes(a: &Vec<u8>, b: &Vec<u8>) -> (r: bool)
    ensures
        r == (a@ == b@),
{
    if a.len() != b.len() {
        return false;
    }
    let mut i: usize = 0;
    while i < a.len()
        invariant
            0 <= i <= a@.len(),
            a@.len() == b@.len(),
            forall|j: int| 0 <= j < i ==> a@[j] == b@[j],
        decreases a@.len() - i,
    {
        if a[i] != b[i] {
            return false;
        }
        i = i + 1;
    }
    assert(a@ =~= b@);
    true
}

pub(crate) fn be_u64_bytes(x: u64) -> (r: Vec<u8>)
    ensures
        r@ == be_bytes_u64(x),
{
    let mut r: Vec<u8> = Vec::new();
    r.push((x >> 56u64) as u8);
    r.push((x >> 48u64) as u8);
    r.push((x >> 40u64) as u8);
    r.push((x >> 32u64) as u8);
    r.push((x >> 24u64) as u8);
    r.push((x >> 16u64) as u8);
    r.push((x >> 8u64) as u8);
    r.push(x as u8);
    assert(r@ =~= be_bytes_u64(x));
    r
}

pub(crate) fn be_u32_bytes(x: u32) -> (r: Vec<u8>)
    ensures
        r@ == be_bytes_u32(x),
{
    let mut r: Vec<u8> = Vec::new();
    r.push((x >> 24u32) as u8);
    r.push((x >> 16u32) as u8);
    r.push((x >> 8u32) as u8);
    r.push(x as u8);
    assert(r@ =~= be_bytes_u32(x));
    r
}

/// Reads the first eight bytes of a digest as a big-endian `u64`.
pub(crate) fn be_prefix_u64(d: &Vec<u8>) -> (r: u64)
    requires
        d@.len() >= 8,
    ensures
        r as int == be_prefix_value(d@),
{
    (d[0] as u64) * 0x100_0000_0000_0000 + (d[1] as u64) * 0x1_0000_0000_0000
        + (d[2] as u64) * 0x100_0000_0000 + (d[3] as u64) * 0x1_0000_0000
        + (d[4] as u64) * 0x100_0000 + (d[5] as u64) * 0x1_0000 + (d[6] as u64) * 0x100
        + (d[7] as u64)
}

/// The winning ticket index, from 1, that a final digest selects among
/// `participants_count` tickets: its first eight bytes read big-endian,
/// modulo the count, plus one.
pub fn select_index(final_digest: &Vec<u8>, participants_count: u64) -> (r: u64)
    requires
        final_digest@.len() >= 8,
        participants_count > 0,
    ensures
        r == be_prefix_value(final_digest@) % (participants_count as int) + 1,
        1 <= r <= participants_count,
{
    be_prefix_u64(final_digest) % participants_count + 1
}

/// The digest a participant must commit to when buying a ticket: the SHA-256
/// of `secret ‖ identity ‖ round_id` with the round id in big-endian.
pub fn commit_hash(env: &soroban_sdk::Env, secret: &Vec<u8>, who: &Vec<u8>, round_id: u64) -> (r: Vec<u8>)
    ensures
        r@ == commit_digest(secret@, who@, round_id),
        r@.len() == 32,
{
    let mut input = copy_bytes(secret);
    push_all(&mut input, who);
    let id_bytes = be_u64_bytes(round_id);
    push_all(&mut input, &id_bytes);
    sha256(env, &input)
}

} // verus!

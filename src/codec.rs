//! Fixed-width payload encoding: an 8-byte discriminator followed by
//! little-endian `u64` fields, and the reverse reading of such fields.
use vstd::bytes::*;
use vstd::prelude::*;
use vstd::slice::slice_subrange;

verus! {

broadcast use vstd::seq::group_seq_axioms;

/// The eight little-endian bytes of `v`.
pub open spec fn le_bytes(v: u64) -> Seq<u8> {
    spec_u64_to_le_bytes(v)
}

/// The `u64` stored little-endian in `b[at..at + 8]`.
pub open spec fn u64_at(b: Seq<u8>, at: int) -> u64 {
    spec_u64_from_le_bytes(b.subrange(at, at + 8))
}

/// The fields laid out one after another, 8 little-endian bytes each.
pub open spec fn encode_fields(fields: Seq<u64>) -> Seq<u8>
    decreases fields.len(),
{
    if fields.len() == 0 {
        Seq::empty()
    } else {
        encode_fields(fields.drop_last()) + le_bytes(fields.last())
    }
}

/// The first `k` little-endian fields of `b`.
pub open spec fn decode_fields(b: Seq<u8>, k: nat) -> Seq<u64> {
    Seq::new(k, |i: int| u64_at(b, 8 * i))
}

/// A full outbound payload: the discriminator, then the encoded fields.
pub open spec fn payload(discriminator: [u8; 8], fields: Seq<u64>) -> Seq<u8> {
    discriminator@ + encode_fields(fields)
}

pub proof fn lemma_le_bytes_len(v: u64)
    ensures
        le_bytes(v).len() == 8,
        spec_u64_from_le_bytes(le_bytes(v)) == v,
{
    lemma_auto_spec_u64_to_from_le_bytes();
}

pub proof fn lemma_encode_fields_len(fields: Seq<u64>)
    ensures
        encode_fields(fields).len() == 8 * fields.len(),
    decreases fields.len(),
{
    if fields.len() > 0 {
        lemma_encode_fields_len(fields.drop_last());
        lemma_le_bytes_len(fields.last());
    }
}

/// Field `i` occupies bytes `8 * i .. 8 * i + 8` of the encoding.
pub proof fn lemma_encode_fields_slot(fields: Seq<u64>, i: int)
    requires
        0 <= i < fields.len(),
    ensures
        encode_fields(fields).subrange(8 * i, 8 * i + 8) == le_bytes(fields[i]),
    decreases fields.len(),
{
    let init = fields.drop_last();
    lemma_encode_fields_len(init);
    lemma_le_bytes_len(fields.last());
    if i < fields.len() - 1 {
        lemma_encode_fields_slot(init, i);
        assert(encode_fields(fields).subrange(8 * i, 8 * i + 8) =~= encode_fields(init).subrange(
            8 * i,
            8 * i + 8,
        ));
    } else {
        assert(encode_fields(fields).subrange(8 * i, 8 * i + 8) =~= le_bytes(fields.last()));
    }
}

/// Decoding the encoding of some fields gives back those fields.
pub proof fn lemma_decode_encode_fields(fields: Seq<u64>)
    ensures
        decode_fields(encode_fields(fields), fields.len()) == fields,
{
    assert forall|i: int| 0 <= i < fields.len() implies u64_at(encode_fields(fields), 8 * i)
        == fields[i] by {
        lemma_encode_fields_slot(fields, i);
        lemma_le_bytes_len(fields[i]);
    }
    assert(decode_fields(encode_fields(fields), fields.len()) =~= fields);
}

/// Encoding the fields read from `8 * k` bytes gives back those bytes.
pub proof fn lemma_encode_decode_fields(b: Seq<u8>, k: nat)
    requires
        b.len() == 8 * k,
    ensures
        encode_fields(decode_fields(b, k)) == b,
    decreases k,
{
    if k > 0 {
        let j = (k - 1) as nat;
        let front = b.subrange(0, 8 * j as int);
        let last = b.subrange(8 * j as int, 8 * k as int);
        lemma_encode_decode_fields(front, j);
        assert forall|i: int| 0 <= i < j implies #[trigger] u64_at(b, 8 * i) == u64_at(front, 8 * i) by {
            assert(b.subrange(8 * i, 8 * i + 8) =~= front.subrange(8 * i, 8 * i + 8));
        }
        assert(decode_fields(b, k).drop_last() =~= decode_fields(front, j));
        lemma_auto_spec_u64_to_from_le_bytes();
        assert(le_bytes(decode_fields(b, k).last()) == last);
        assert(b =~= front + last);
    }
}

/// Reads the little-endian `u64` at `b[at..at + 8]`.
pub fn read_u64(b: &[u8], at: usize) -> (r: u64)
    requires
        at + 8 <= b@.len(),
    ensures
        r == u64_at(b@, at as int),
{
    let tail = slice_subrange(b, at, b.len());
    assert(tail@.subrange(0, 8) =~= b@.subrange(at as int, at + 8));
    u64_from_le_bytes(slice_subrange(tail, 0, 8))
}

/// Reads the little-endian `u16` at `b[at..at + 2]`.
pub fn read_u16(b: &[u8], at: usize) -> (r: u16)
    requires
        at + 2 <= b@.len(),
    ensures
        r == spec_u16_from_le_bytes(b@.subrange(at as int, at + 2)),
{
    let tail = slice_subrange(b, at, b.len());
    assert(tail@.subrange(0, 2) =~= b@.subrange(at as int, at + 2));
    u16_from_le_bytes(slice_subrange(tail, 0, 2))
}

/// Reads the little-endian `u128` at `b[at..at + 16]`.
pub fn read_u128(b: &[u8], at: usize) -> (r: u128)
    requires
        at + 16 <= b@.len(),
    ensures
        r == spec_u128_from_le_bytes(b@.subrange(at as int, at + 16)),
{
    let tail = slice_subrange(b, at, b.len());
    assert(tail@.subrange(0, 16) =~= b@.subrange(at as int, at + 16));
    u128_from_le_bytes(slice_subrange(tail, 0, 16))
}

/// Copies the 32 bytes at `b[at..at + 32]`.
pub fn read_key(b: &[u8], at: usize) -> (r: [u8; 32])
    requires
        at + 32 <= b@.len(),
    ensures
        r@ == b@.subrange(at as int, at + 32),
{
    let tail = slice_subrange(b, at, b.len());
    let mut key = [0u8; 32];
    let mut i: usize = 0;
    while i < 32
        invariant
            i <= 32,
            at + 32 <= b@.len(),
            tail@ == b@.subrange(at as int, b@.len() as int),
            forall|j: int| 0 <= j < i ==> key@[j] == tail@[j],
        decreases 32 - i,
    {
        key[i] = tail[i];
        i = i + 1;
    }
    assert(key@ =~= b@.subrange(at as int, at + 32));
    key
}

/// Whether two keys hold the same bytes.
pub fn keys_equal(a: &[u8; 32], b: &[u8; 32]) -> (r: bool)
    ensures
        r <==> a@ == b@,
{
    let mut i: usize = 0;
    while i < 32
        invariant
            i <= 32,
            forall|j: int| 0 <= j < i ==> a@[j] == b@[j],
        decreases 32 - i,
    {
        if a[i] != b[i] {
            return false;
        }
        i = i + 1;
    }
    assert(a@ =~= b@);
    true
}

/// Whether `b` starts with the eight bytes of `tag`.
pub fn has_prefix(b: &[u8], tag: &[u8; 8]) -> (r: bool)
    ensures
        r <==> b@.len() >= 8 && b@.subrange(0, 8) == tag@,
{
    if b.len() < 8 {
        return false;
    }
    let mut i: usize = 0;
    while i < 8
        invariant
            i <= 8,
            8 <= b@.len(),
            forall|j: int| 0 <= j < i ==> b@[j] == tag@[j],
        decreases 8 - i,
    {
        if b[i] != tag[i] {
            return false;
        }
        i = i + 1;
    }
    assert(b@.subrange(0, 8) =~= tag@);
    true
}

/// Builds the payload `discriminator ++ fields`, each field little-endian.
pub fn encode_payload(discriminator: &[u8; 8], fields: &[u64]) -> (r: Vec<u8>)
    requires
        fields@.len() <= 8,
    ensures
        r@ == payload(*discriminator, fields@),
        r@.len() == 8 + 8 * fields@.len(),
{
    let mut out: Vec<u8> = Vec::with_capacity(8 + 8 * fields.len());
    let mut i: usize = 0;
    while i < 8
        invariant
            i <= 8,
            out@ == discriminator@.subrange(0, i as int),
        decreases 8 - i,
    {
        out.push(discriminator[i]);
        i = i + 1;
        assert(out@ =~= discriminator@.subrange(0, i as int));
    }
    let mut k: usize = 0;
    while k < fields.len()
        invariant
            k <= fields@.len(),
            out@ == discriminator@ + encode_fields(fields@.subrange(0, k as int)),
        decreases fields@.len() - k,
    {
        let bytes = u64_to_le_bytes(fields[k]);
        let ghost before = out@;
        let mut j: usize = 0;
        while j < 8
            invariant
                j <= 8,
                bytes@ == le_bytes(fields@[k as int]),
                bytes@.len() == 8,
                out@ == before + bytes@.subrange(0, j as int),
            decreases 8 - j,
        {
            out.push(bytes[j]);
            j = j + 1;
            assert(out@ =~= before + bytes@.subrange(0, j as int));
        }
        assert(fields@.subrange(0, k + 1).drop_last() =~= fields@.subrange(0, k as int));
        k = k + 1;
        assert(out@ =~= discriminator@ + encode_fields(fields@.subrange(0, k as int)));
    }
    assert(fields@.subrange(0, fields@.len() as int) =~= fields@);
    proof {
        lemma_encode_fields_len(fields@);
    }
    out
}

} // verus!

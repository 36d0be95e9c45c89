//! The dataset codec: serializes the prime sequence to a raw binary blob of
//! four little-endian bytes per element, and deserializes such a blob back,
//! with no validation beyond the length check.

use crate::primes::Primes;
use vstd::bytes::lemma_auto_spec_u32_to_from_le_bytes;
use vstd::bytes::spec_u32_from_le_bytes;
use vstd::bytes::spec_u32_to_le_bytes;
use vstd::prelude::*;

verus! {

/// The blob for a sequence of 32-bit values: four little-endian bytes per
/// element, in element order, with no header, separators or checksum.
pub open spec fn encoded(s: Seq<u32>) -> Seq<u8>
    decreases s.len(),
{
    if s.len() == 0 {
        Seq::empty()
    } else {
        spec_u32_to_le_bytes(s[0]) + encoded(s.drop_first())
    }
}

/// The values read back from a blob: each aligned 4-byte group, little
/// endian, in blob order. Trailing bytes short of a group are ignored here;
/// `decode` rejects such a blob outright.
pub open spec fn decoded(b: Seq<u8>) -> Seq<u32> {
    Seq::new(b.len() / 4, |i: int| spec_u32_from_le_bytes(b.subrange(4 * i, 4 * i + 4)))
}

pub proof fn lemma_encoded_len(s: Seq<u32>)
    ensures
        encoded(s).len() == 4 * s.len(),
    decreases s.len(),
{
    lemma_auto_spec_u32_to_from_le_bytes();
    if s.len() > 0 {
        lemma_encoded_len(s.drop_first());
    }
}

pub proof fn lemma_encoded_push(s: Seq<u32>, x: u32)
    ensures
        encoded(s.push(x)) == encoded(s) + spec_u32_to_le_bytes(x),
    decreases s.len(),
{
    lemma_auto_spec_u32_to_from_le_bytes();
    if s.len() == 0 {
        reveal_with_fuel(encoded, 3);
        assert(s.push(x).drop_first() =~= Seq::<u32>::empty());
        assert(encoded(s.push(x)) =~= encoded(s) + spec_u32_to_le_bytes(x));
    } else {
        assert(s.push(x).drop_first() =~= s.drop_first().push(x));
        lemma_encoded_push(s.drop_first(), x);
        assert(encoded(s.push(x)) =~= encoded(s) + spec_u32_to_le_bytes(x));
    }
}

/// Each element's four bytes sit at offset `4 * i` of the blob.
pub proof fn lemma_encoded_index(s: Seq<u32>, i: int)
    requires
        0 <= i < s.len(),
    ensures
        encoded(s).subrange(4 * i, 4 * i + 4) == spec_u32_to_le_bytes(s[i]),
    decreases i,
{
    lemma_auto_spec_u32_to_from_le_bytes();
    lemma_encoded_len(s);
    lemma_encoded_len(s.drop_first());
    if i == 0 {
        assert(encoded(s).subrange(0, 4) =~= spec_u32_to_le_bytes(s[0]));
    } else {
        lemma_encoded_index(s.drop_first(), i - 1);
        assert(encoded(s).subrange(4 * i, 4 * i + 4) =~= encoded(s.drop_first()).subrange(
            4 * (i - 1),
            4 * (i - 1) + 4,
        ));
    }
}

/// Round trip: decoding an encoded sequence gives the sequence back,
/// including the empty one.
pub proof fn lemma_round_trip(s: Seq<u32>)
    ensures
        decoded(encoded(s)) == s,
{
    lemma_auto_spec_u32_to_from_le_bytes();
    lemma_encoded_len(s);
    assert forall|i: int| 0 <= i < s.len() implies decoded(encoded(s))[i] == s[i] by {
        lemma_encoded_index(s, i);
        assert(spec_u32_to_le_bytes(s[i]).len() == 4);
        assert(spec_u32_from_le_bytes(spec_u32_to_le_bytes(s[i])) == s[i]);
    }
    assert(decoded(encoded(s)) =~= s);
}

/// The decode failure: the blob's length is not a multiple of four.
#[derive(Debug, PartialEq, Eq, Structural)]
pub struct MalformedDataset;

/// Serializes the dataset: four little-endian bytes per element, nothing
/// else.
pub fn encode(p: &Primes) -> (r: Vec<u8>)
    ensures
        r@ == encoded(p@),
{
    let values = p.primes();
    let mut out: Vec<u8> = Vec::new();
    let mut idx: usize = 0;
    proof {
        lemma_auto_spec_u32_to_from_le_bytes();
        assert(p@.take(0) =~= Seq::<u32>::empty());
    }
    while idx < values.len()
        invariant
            idx <= values.len(),
            values@ == p@,
            out@ == encoded(p@.take(idx as int)),
        decreases values.len() - idx,
    {
        let x = values[idx];
        let mut group = vstd::bytes::u32_to_le_bytes(x);
        out.append(&mut group);
        proof {
            lemma_encoded_push(p@.take(idx as int), x);
            assert(p@.take(idx + 1) =~= p@.take(idx as int).push(x));
        }
        idx = idx + 1;
    }
    proof {
        assert(p@.take(values@.len() as int) =~= p@);
    }
    out
}

/// Deserializes a blob. Fails iff the length is not a multiple of four;
/// otherwise reinterprets each aligned 4-byte group, little endian, with no
/// further validation: sortedness and primality are trusted, since the blob
/// comes from the build step.
pub fn decode(bytes: &Vec<u8>) -> (r: Result<Primes, MalformedDataset>)
    ensures
        r is Ok <==> bytes@.len() % 4 == 0,
        r is Ok ==> r->Ok_0@ == decoded(bytes@),
{
    if bytes.len() % 4 != 0 {
        return Err(MalformedDataset);
    }
    let mut values: Vec<u32> = Vec::new();
    let mut idx: usize = 0;
    while idx < bytes.len()
        invariant
            idx % 4 == 0,
            idx <= bytes@.len(),
            bytes@.len() % 4 == 0,
            values@.len() == idx / 4,
            forall|j: int|
                0 <= j < values@.len() ==> values@[j] == spec_u32_from_le_bytes(
                    #[trigger] bytes@.subrange(4 * j, 4 * j + 4),
                ),
        decreases bytes@.len() - idx,
    {
        proof {
            assert(idx + 4 <= bytes@.len()) by (nonlinear_arith)
                requires
                    idx % 4 == 0,
                    bytes@.len() % 4 == 0,
                    idx < bytes@.len(),
            ;
        }
        let mut group: Vec<u8> = Vec::new();
        group.push(bytes[idx]);
        group.push(bytes[idx + 1]);
        group.push(bytes[idx + 2]);
        group.push(bytes[idx + 3]);
        let w = vstd::bytes::u32_from_le_bytes(group.as_slice());
        proof {
            let j = idx as int / 4;
            assert(group@ =~= bytes@.subrange(4 * j, 4 * j + 4));
        }
        values.push(w);
        idx = idx + 4;
    }
    proof {
        assert(values@ =~= decoded(bytes@));
    }
    Ok(Primes::from_unchecked(values))
}

} // verus!

//! Cache keys for hashes of field elements.
//!
//! A field element is held by its 32-byte big-endian encoding. A sequence of
//! field elements is keyed by the concatenation of their encodings; since
//! every encoding has the same width, two different sequences never share a
//! key, so a cache keyed this way finds exactly the entries that a cache
//! keyed by the elements themselves would find.

use crate::cache_map::FeltBytes;
use vstd::prelude::*;

verus! {

/// The concatenation of the encodings of `words`, in order.
pub open spec fn felt_words_bytes(words: Seq<FeltBytes>) -> Seq<u8>
    decreases words.len(),
{
    if words.len() == 0 {
        Seq::empty()
    } else {
        felt_words_bytes(words.drop_last()) + words.last()@
    }
}

/// The key under which the hash of the pair `(left, right)` is cached.
pub open spec fn felt_pair_bytes(left: FeltBytes, right: FeltBytes) -> Seq<u8> {
    felt_words_bytes(seq![left, right])
}

/// The key of `n` field elements is `32 * n` bytes long, and its byte
/// `32 * i + j` is byte `j` of element `i`.
pub proof fn lemma_felt_words_bytes_layout(words: Seq<FeltBytes>)
    ensures
        felt_words_bytes(words).len() == 32 * words.len(),
        forall|i: int, j: int|
            0 <= i < words.len() && 0 <= j < 32 ==> #[trigger] felt_words_bytes(words)[32 * i + j]
                == words[i]@[j],
    decreases words.len(),
{
    if words.len() > 0 {
        let prefix = words.drop_last();
        lemma_felt_words_bytes_layout(prefix);
        assert forall|i: int, j: int|
            0 <= i < words.len() && 0 <= j < 32 implies #[trigger] felt_words_bytes(words)[32 * i
            + j] == words[i]@[j] by {
            if i < words.len() - 1 {
                assert(32 * i + j < 32 * prefix.len());
                assert(felt_words_bytes(prefix)[32 * i + j] == prefix[i]@[j]);
            } else {
                assert(32 * i + j - 32 * prefix.len() == j);
            }
        }
    }
}

/// Two sequences of field elements with the same key are the same sequence.
pub proof fn lemma_felt_words_key_injective(a: Seq<FeltBytes>, b: Seq<FeltBytes>)
    requires
        felt_words_bytes(a) == felt_words_bytes(b),
    ensures
        a == b,
{
    lemma_felt_words_bytes_layout(a);
    lemma_felt_words_bytes_layout(b);
    assert(a.len() == b.len());
    assert forall|i: int| 0 <= i < a.len() implies a[i] == b[i] by {
        assert forall|j: int| 0 <= j < 32 implies a[i]@[j] == b[i]@[j] by {
            assert(felt_words_bytes(a)[32 * i + j] == a[i]@[j]);
            assert(felt_words_bytes(b)[32 * i + j] == b[i]@[j]);
        }
        assert(a[i]@ =~= b[i]@);
    }
    assert(a =~= b);
}

/// Two pairs of field elements with the same key are the same pair.
pub proof fn lemma_felt_pair_key_injective(l1: FeltBytes, r1: FeltBytes, l2: FeltBytes, r2: FeltBytes)
    requires
        felt_pair_bytes(l1, r1) == felt_pair_bytes(l2, r2),
    ensures
        l1 == l2,
        r1 == r2,
{
    lemma_felt_words_key_injective(seq![l1, r1], seq![l2, r2]);
    assert(seq![l1, r1][0] == seq![l2, r2][0]);
    assert(seq![l1, r1][1] == seq![l2, r2][1]);
}

/// The key of a pair is the encoding of its left element followed by that
/// of its right element, and the key of no elements is empty.
pub proof fn lemma_felt_pair_bytes_concatenate(left: FeltBytes, right: FeltBytes)
    ensures
        felt_pair_bytes(left, right) == left@ + right@,
        felt_words_bytes(Seq::<FeltBytes>::empty()) == Seq::<u8>::empty(),
{
    let pair = seq![left, right];
    assert(pair.drop_last() =~= seq![left]);
    assert(seq![left].drop_last() =~= Seq::<FeltBytes>::empty());
    assert(felt_words_bytes(Seq::<FeltBytes>::empty()) == Seq::<u8>::empty());
    assert(seq![left].last() == left);
    assert(felt_words_bytes(seq![left]) =~= Seq::<u8>::empty() + left@);
    assert(Seq::<u8>::empty() + left@ =~= left@);
}

/// Appends the encoding of one field element to `key`.
fn push_felt_bytes(key: &mut Vec<u8>, word: &FeltBytes)
    ensures
        final(key)@ == old(key)@ + word@,
{
    let ghost start = key@;
    for j in 0..32
        invariant
            key@ == start + word@.take(j as int),
    {
        key.push(word[j]);
        assert(word@.take(j + 1) =~= word@.take(j as int).push(word@[j as int]));
    }
    assert(word@.take(32) =~= word@);
}

/// The cache key of a sequence of field elements.
pub fn felt_array_key(values: &[FeltBytes]) -> (key: Vec<u8>)
    ensures
        key@ == felt_words_bytes(values@),
{
    let mut key: Vec<u8> = Vec::new();
    for i in 0..values.len()
        invariant
            key@ == felt_words_bytes(values@.take(i as int)),
    {
        push_felt_bytes(&mut key, &values[i]);
        assert(values@.take(i + 1).drop_last() =~= values@.take(i as int));
    }
    assert(values@.take(values@.len() as int) =~= values@);
    key
}

/// The cache key of the pair `(left, right)`.
pub fn felt_pair_key(left: &FeltBytes, right: &FeltBytes) -> (key: Vec<u8>)
    ensures
        key@ == felt_pair_bytes(*left, *right),
{
    let mut key: Vec<u8> = Vec::new();
    push_felt_bytes(&mut key, left);
    push_felt_bytes(&mut key, right);
    proof {
        let pair = seq![*left, *right];
        assert(pair.drop_last() =~= seq![*left]);
        assert(seq![*left].drop_last() =~= Seq::<FeltBytes>::empty());
        assert(felt_words_bytes(Seq::<FeltBytes>::empty()) == Seq::<u8>::empty());
        assert(seq![*left].last() == *left);
        assert(felt_words_bytes(seq![*left]) =~= Seq::<u8>::empty() + left@);
        assert(Seq::<u8>::empty() + left@ =~= left@);
    }
    key
}

} // verus!

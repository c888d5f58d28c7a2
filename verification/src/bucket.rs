//! The stable bucket of a targeting key.

use sha2::Digest;
use vstd::prelude::*;
use vstd::string::*;
use vstd::utf8::encode_utf8;
use crate::text::lemma_utf8_injective;

verus! {

/// The SHA-256 digest of a run of bytes.
pub uninterp spec fn sha256_digest(bytes: Seq<u8>) -> Seq<u8>;

/// `sha2::Sha256::digest`. The digest has thirty-two bytes and is a function of the message alone,
/// under the name `sha256_digest`.
#[verifier::external_body]
fn sha256(message: &[u8]) -> (digest: Vec<u8>)
    ensures
        digest@ == sha256_digest(message@),
        digest@.len() == 32,
{
    sha2::Sha256::digest(message).to_vec()
}

/// Each part's UTF-8 bytes, followed by a zero byte.
pub open spec fn terminated(parts: Seq<Seq<char>>) -> Seq<u8>
    decreases parts.len(),
{
    if parts.len() == 0 {
        seq![]
    } else {
        terminated(parts.drop_last()) + encode_utf8(parts.last()).push(0u8)
    }
}

/// The message whose digest decides the bucket.
pub open spec fn bucket_message(
    organization_id: Seq<char>,
    environment_key: Seq<char>,
    flag_key: Seq<char>,
    targeting_key: Seq<char>,
) -> Seq<u8> {
    terminated(seq![organization_id, environment_key, flag_key, targeting_key])
}

/// The number that a run of bytes stands for, the most significant byte first.
pub open spec fn big_endian(bytes: Seq<u8>) -> int
    decreases bytes.len(),
{
    if bytes.len() == 0 {
        0
    } else {
        big_endian(bytes.drop_last()) * 256 + bytes.last() as int
    }
}

/// How many buckets there are.
pub const BUCKETS: u64 = 10_000;

/// The bucket that a digest decides: its first eight bytes, as a number, modulo the number of
/// buckets.
pub open spec fn digest_bucket_of(digest: Seq<u8>) -> int {
    big_endian(digest.take(8)) % (BUCKETS as int)
}

/// The bucket of a targeting key for a flag in an environment of an organization.
pub open spec fn bucket_of(
    organization_id: Seq<char>,
    environment_key: Seq<char>,
    flag_key: Seq<char>,
    targeting_key: Seq<char>,
) -> int {
    digest_bucket_of(
        sha256_digest(bucket_message(organization_id, environment_key, flag_key, targeting_key)),
    )
}

/// Appends the bytes of a text and a zero byte.
fn push_part(message: &mut Vec<u8>, part: &str)
    ensures
        final(message)@ == old(message)@ + encode_utf8(part@).push(0u8),
{
    let bytes = part.as_bytes();
    let ghost before = message@;
    let mut i: usize = 0;
    while i < bytes.len()
        invariant
            i <= bytes@.len(),
            message@ == before + bytes@.take(i as int),
        decreases bytes@.len() - i,
    {
        message.push(bytes[i]);
        i += 1;
        assert(bytes@.take(i as int) =~= bytes@.take(i - 1).push(bytes@[i - 1]));
        assert(message@ =~= before + bytes@.take(i as int));
    }
    assert(bytes@.take(i as int) =~= bytes@);
    message.push(0u8);
    assert(message@ =~= before + bytes@.push(0u8));
}

/// The bucket that a digest decides.
pub fn digest_bucket(digest: &[u8]) -> (bucket: u64)
    requires
        digest@.len() >= 8,
    ensures
        bucket == digest_bucket_of(digest@),
        bucket < BUCKETS,
{
    let mut number: u64 = 0;
    let mut i: usize = 0;
    let ghost mut bound: int = 1;
    assert(digest@.take(0) =~= Seq::<u8>::empty());
    while i < 8
        invariant
            i <= 8,
            digest@.len() >= 8,
            number == big_endian(digest@.take(i as int)),
            0 <= number < bound,
            i == 0 ==> bound == 0x1,
            i == 1 ==> bound == 0x100,
            i == 2 ==> bound == 0x1_0000,
            i == 3 ==> bound == 0x100_0000,
            i == 4 ==> bound == 0x1_0000_0000,
            i == 5 ==> bound == 0x100_0000_0000,
            i == 6 ==> bound == 0x1_0000_0000_0000,
            i == 7 ==> bound == 0x100_0000_0000_0000,
        decreases 8 - i,
    {
        let ghost longer = digest@.take(i + 1);
        assert(longer.drop_last() =~= digest@.take(i as int));
        assert(longer.last() == digest@[i as int]);
        number = number * 256 + digest[i] as u64;
        proof {
            bound = bound * 256;
        }
        i += 1;
    }
    number % BUCKETS
}

/// The bucket of a targeting key, in `[0, 10000)`: the first eight bytes of the SHA-256 digest of
/// the four keys, each followed by a zero byte, as a number modulo ten thousand.
pub fn deterministic_bucket(
    organization_id: &str,
    environment_key: &str,
    flag_key: &str,
    targeting_key: &str,
) -> (bucket: u64)
    ensures
        bucket == bucket_of(organization_id@, environment_key@, flag_key@, targeting_key@),
        bucket < BUCKETS,
{
    let mut message: Vec<u8> = Vec::new();
    push_part(&mut message, organization_id);
    push_part(&mut message, environment_key);
    push_part(&mut message, flag_key);
    push_part(&mut message, targeting_key);
    proof {
        let parts = seq![organization_id@, environment_key@, flag_key@, targeting_key@];
        reveal_with_fuel(terminated, 5);
        assert(parts.drop_last() =~= seq![organization_id@, environment_key@, flag_key@]);
        assert(parts.drop_last().drop_last() =~= seq![organization_id@, environment_key@]);
        assert(parts.drop_last().drop_last().drop_last() =~= seq![organization_id@]);
        assert(message@ =~= terminated(parts));
    }
    let digest = sha256(message.as_slice());
    digest_bucket(digest.as_slice())
}

/// The text has no zero character.
pub open spec fn zero_free(text: Seq<char>) -> bool {
    !encode_utf8(text).contains(0u8)
}

proof fn lemma_last_part(a: Seq<u8>, x: Seq<u8>, b: Seq<u8>, y: Seq<u8>)
    requires
        !x.contains(0u8),
        !y.contains(0u8),
        a.len() > 0 ==> a.last() == 0u8,
        b.len() > 0 ==> b.last() == 0u8,
        a + x.push(0u8) == b + y.push(0u8),
    ensures
        a == b,
        x == y,
{
    let left = a + x.push(0u8);
    let right = b + y.push(0u8);
    if x.len() < y.len() {
        let at = left.len() - 2 - x.len();
        assert(left[at] == a.last());
        assert(right[at] == y[at - b.len()]);
        assert(y.contains(0u8));
    }
    if y.len() < x.len() {
        let at = right.len() - 2 - y.len();
        assert(right[at] == b.last());
        assert(left[at] == x[at - a.len()]);
        assert(x.contains(0u8));
    }
    assert(a =~= left.take(a.len() as int));
    assert(b =~= right.take(b.len() as int));
    assert(x =~= left.subrange(a.len() as int, left.len() - 1));
    assert(y =~= right.subrange(b.len() as int, right.len() - 1));
}

proof fn lemma_terminated_injective(a: Seq<Seq<char>>, b: Seq<Seq<char>>)
    requires
        a.len() == b.len(),
        forall|i: int| 0 <= i < a.len() ==> zero_free(#[trigger] a[i]),
        forall|i: int| 0 <= i < b.len() ==> zero_free(#[trigger] b[i]),
        terminated(a) == terminated(b),
    ensures
        a == b,
    decreases a.len(),
{
    if a.len() > 0 {
        let before_a = terminated(a.drop_last());
        let before_b = terminated(b.drop_last());
        assert(a.drop_last().len() > 0 ==> before_a.last() == 0u8);
        assert(b.drop_last().len() > 0 ==> before_b.last() == 0u8);
        assert(zero_free(a[a.len() - 1]));
        assert(zero_free(b[b.len() - 1]));
        lemma_last_part(before_a, encode_utf8(a.last()), before_b, encode_utf8(b.last()));
        lemma_utf8_injective(a.last(), b.last());
        lemma_terminated_injective(a.drop_last(), b.drop_last());
        assert(a =~= a.drop_last().push(a.last()));
        assert(b =~= b.drop_last().push(b.last()));
    } else {
        assert(a =~= b);
    }
}

/// The message tells the four keys apart, whatever their lengths: two tuples of keys without zero
/// characters have the same message only if they agree key by key.
pub proof fn lemma_bucket_message_injective(
    a: (Seq<char>, Seq<char>, Seq<char>, Seq<char>),
    b: (Seq<char>, Seq<char>, Seq<char>, Seq<char>),
)
    requires
        zero_free(a.0) && zero_free(a.1) && zero_free(a.2) && zero_free(a.3),
        zero_free(b.0) && zero_free(b.1) && zero_free(b.2) && zero_free(b.3),
        bucket_message(a.0, a.1, a.2, a.3) == bucket_message(b.0, b.1, b.2, b.3),
    ensures
        a == b,
{
    let left = seq![a.0, a.1, a.2, a.3];
    let right = seq![b.0, b.1, b.2, b.3];
    lemma_terminated_injective(left, right);
    assert(left[0] == right[0] && left[1] == right[1] && left[2] == right[2] && left[3]
        == right[3]);
}

} // verus!

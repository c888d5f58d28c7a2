//! Which bucket a targeting key falls into.

use vstd::prelude::*;
use vstd::utf8::encode_utf8;
use crate::bucket::{
    big_endian, bucket_message, bucket_of, digest_bucket_of, sha256_digest, terminated, BUCKETS,
};

verus! {

/// The message that is hashed is the four keys in order, each followed by one zero byte.
pub proof fn lemma_message_is_the_four_keys(
    organization_id: Seq<char>,
    environment_key: Seq<char>,
    flag_key: Seq<char>,
    targeting_key: Seq<char>,
)
    ensures
        bucket_message(organization_id, environment_key, flag_key, targeting_key) == encode_utf8(
            organization_id,
        ) + seq![0u8] + encode_utf8(environment_key) + seq![0u8] + encode_utf8(flag_key) + seq![
            0u8,
        ] + encode_utf8(targeting_key) + seq![0u8],
{
    let parts = seq![organization_id, environment_key, flag_key, targeting_key];
    reveal_with_fuel(terminated, 5);
    assert(parts.drop_last() =~= seq![organization_id, environment_key, flag_key]);
    assert(parts.drop_last().drop_last() =~= seq![organization_id, environment_key]);
    assert(parts.drop_last().drop_last().drop_last() =~= seq![organization_id]);
    assert(parts.drop_last().drop_last().drop_last().drop_last() =~= Seq::<Seq<char>>::empty());
    assert(terminated(parts) =~= encode_utf8(organization_id) + seq![0u8] + encode_utf8(
        environment_key,
    ) + seq![0u8] + encode_utf8(flag_key) + seq![0u8] + encode_utf8(targeting_key) + seq![0u8]);
}

/// The number in the first eight bytes of a digest, the first byte being the most significant.
pub open spec fn leading_number(digest: Seq<u8>) -> int {
    digest[0] * 0x100_0000_0000_0000 + digest[1] * 0x1_0000_0000_0000 + digest[2]
        * 0x100_0000_0000 + digest[3] * 0x1_0000_0000 + digest[4] * 0x100_0000 + digest[5]
        * 0x1_0000 + digest[6] * 0x100 + digest[7]
}

/// The bucket is the number in the digest's first eight bytes, modulo ten thousand.
pub proof fn lemma_bucket_of_digest(digest: Seq<u8>)
    requires
        digest.len() >= 8,
    ensures
        digest_bucket_of(digest) == leading_number(digest) % 10_000,
        0 <= digest_bucket_of(digest) < 10_000,
{
    reveal_with_fuel(big_endian, 9);
    let eight = digest.take(8);
    let seven = eight.drop_last();
    let six = seven.drop_last();
    let five = six.drop_last();
    let four = five.drop_last();
    let three = four.drop_last();
    let two = three.drop_last();
    let one = two.drop_last();
    assert(one.drop_last().len() == 0);
    assert(big_endian(one) == digest[0]);
    assert(big_endian(two) == digest[0] * 0x100 + digest[1]);
    assert(big_endian(three) == digest[0] * 0x1_0000 + digest[1] * 0x100 + digest[2]);
    assert(big_endian(four) == digest[0] * 0x100_0000 + digest[1] * 0x1_0000 + digest[2] * 0x100
        + digest[3]);
    assert(big_endian(eight) == leading_number(digest));
    assert(BUCKETS == 10_000);
}

/// The bucket of a targeting key depends on the four keys through their digest, and on nothing
/// else.
pub proof fn lemma_bucket_is_of_the_four_keys(
    organization_id: Seq<char>,
    environment_key: Seq<char>,
    flag_key: Seq<char>,
    targeting_key: Seq<char>,
)
    ensures
        bucket_of(organization_id, environment_key, flag_key, targeting_key) == digest_bucket_of(
            sha256_digest(
                encode_utf8(organization_id) + seq![0u8] + encode_utf8(environment_key) + seq![0u8]
                    + encode_utf8(flag_key) + seq![0u8] + encode_utf8(targeting_key) + seq![0u8],
            ),
        ),
{
    lemma_message_is_the_four_keys(organization_id, environment_key, flag_key, targeting_key);
}

} // verus!

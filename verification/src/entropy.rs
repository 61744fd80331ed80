use vstd::prelude::*;
use crate::address::Address;

verus! {

/// Salt of the success roll.
pub const SALT_SUCCESS: u8 = 0;

/// Salt of the rolls for a critical success and for the rarity tier.
pub const SALT_RARITY: u8 = 1;

/// Salt of the roll for an interesting failure.
pub const SALT_FAILURE: u8 = 2;

/// The timestamp as an unsigned 64-bit number in two's complement, with the
/// salt added modulo 2^64.
pub open spec fn salted_timestamp(timestamp: i64, salt: u8) -> int {
    (timestamp + salt) % 0x1_0000_0000_0000_0000
}

/// Byte `i` of `x` in little-endian order.
pub open spec fn le_byte(x: int, i: int) -> int
    decreases i,
{
    if i <= 0 {
        x % 256
    } else {
        le_byte(x / 256, i - 1)
    }
}

/// What the timestamp contributes at position `i`: its little-endian byte
/// in the first eight positions, nothing after them.
pub open spec fn timestamp_byte(salted: int, i: int) -> u8 {
    if 0 <= i < 8 { le_byte(salted, i) as u8 } else { 0u8 }
}

/// Byte `i` of the stream: the outside entropy folded by XOR with the actor's
/// identifier, taken modulo 32, and with the timestamp.
pub open spec fn entropy_byte(external: Seq<u8>, actor: Seq<u8>, salted: int, i: int) -> u8 {
    external[i] ^ actor[i % 32] ^ timestamp_byte(salted, i)
}

/// The 32-byte stream derived from outside entropy, an actor and a salted timestamp.
pub open spec fn derive_spec(external: Seq<u8>, actor: Seq<u8>, timestamp: i64, salt: u8) -> Seq<u8> {
    Seq::new(32, |i: int| entropy_byte(external, actor, salted_timestamp(timestamp, salt), i))
}

/// The inputs from which the rolls of one attempt are drawn. The stream is
/// reproducible and predictable by anyone who knows the inputs: it is
/// randomness for play, no security primitive.
#[derive(Clone, Copy, Debug, PartialEq, Eq)]
pub struct EntropySource {
    /// Entropy from outside, such as a recent block hash.
    pub external: [u8; 32],
    /// The actor for whom the roll is made.
    pub actor: Address,
    /// Time of the attempt.
    pub timestamp: i64,
}

impl EntropySource {
    /// Gathers the inputs of a stream.
    pub fn new(external: [u8; 32], actor: Address, timestamp: i64) -> (source: EntropySource)
        ensures
            source.external == external,
            source.actor == actor,
            source.timestamp == timestamp,
    {
        EntropySource { external, actor, timestamp }
    }

    /// The stream that `derive` returns for a salt.
    pub open spec fn stream(&self, salt: u8) -> Seq<u8> {
        derive_spec(self.external@, self.actor@, self.timestamp, salt)
    }

    /// Derives the 32-byte stream for one salt. Independent rolls of one
    /// attempt use different salts.
    pub fn derive(&self, salt: u8) -> (data: [u8; 32])
        ensures
            data@ == self.stream(salt),
    {
        let ts_bytes = salted_timestamp_bytes(self.timestamp, salt);
        let ghost salted = salted_timestamp(self.timestamp, salt);
        let mut data: [u8; 32] = [0u8; 32];
        let mut i: usize = 0;
        while i < 32
            invariant
                i <= 32,
                ts_bytes@.len() == 8,
                forall|j: int| 0 <= j < 8 ==> ts_bytes@[j] == timestamp_byte(salted, j),
                forall|j: int|
                    0 <= j < i ==> data@[j] == entropy_byte(
                        self.external@,
                        self.actor@,
                        salted,
                        j,
                    ),
            decreases 32 - i,
        {
            let from_time: u8 = if i < 8 { ts_bytes[i] } else { 0 };
            let folded: u8 = self.external[i] ^ self.actor.bytes[i % 32] ^ from_time;
            data[i] = folded;
            i += 1;
        }
        assert(data@ =~= self.stream(salt));
        data
    }
}

/// The eight little-endian bytes of the salted timestamp.
pub fn salted_timestamp_bytes(timestamp: i64, salt: u8) -> (bytes: [u8; 8])
    ensures
        forall|j: int| 0 <= j < 8 ==> bytes@[j] == timestamp_byte(salted_timestamp(timestamp, salt), j),
{
    let unsigned: u64 = if timestamp >= 0 {
        timestamp as u64
    } else {
        u64::MAX - ((-(timestamp + 1)) as u64)
    };
    let salted: u64 = unsigned.wrapping_add(salt as u64);
    assert(salted == salted_timestamp(timestamp, salt));
    let mut bytes: [u8; 8] = [0u8; 8];
    let mut rest: u64 = salted;
    let mut i: usize = 0;
    while i < 8
        invariant
            i <= 8,
            forall|j: int| 0 <= j < i ==> bytes@[j] == le_byte(salted as int, j) as u8,
            forall|k: int| 0 <= k ==> #[trigger] le_byte(rest as int, k) == le_byte(salted as int, k + i),
        decreases 8 - i,
    {
        let low: u8 = (rest % 256) as u8;
        assert(low == le_byte(salted as int, i as int)) by {
            assert(le_byte(rest as int, 0) == le_byte(salted as int, 0 + i));
        }
        bytes[i] = low;
        let ghost before = rest;
        rest = rest / 256;
        assert forall|k: int| 0 <= k implies #[trigger] le_byte(rest as int, k) == le_byte(
            salted as int,
            k + i + 1,
        ) by {
            assert(le_byte(before as int, k + 1) == le_byte(salted as int, k + 1 + i));
        }
        i += 1;
    }
    bytes
}

/// Different salts give different salted timestamps, whatever the timestamp.
pub proof fn lemma_salts_decorrelate(timestamp: i64, salt_a: u8, salt_b: u8)
    requires
        salt_a != salt_b,
    ensures
        salted_timestamp(timestamp, salt_a) != salted_timestamp(timestamp, salt_b),
{
}

/// Two numbers with the same `n` low bytes that agree above them are equal.
proof fn lemma_bytes_determine(x: int, y: int, n: nat)
    requires
        0 <= x,
        0 <= y,
        forall|i: int| 0 <= i < n ==> #[trigger] le_byte(x, i) == le_byte(y, i),
        rest_equal(x, y, n),
    ensures
        x == y,
    decreases n,
{
    if n > 0 {
        assert(le_byte(x, 0) == le_byte(y, 0));
        assert forall|i: int| 0 <= i < n - 1 implies #[trigger] le_byte(x / 256, i) == le_byte(
            y / 256,
            i,
        ) by {
            assert(le_byte(x, i + 1) == le_byte(y, i + 1));
        }
        lemma_bytes_determine(x / 256, y / 256, (n - 1) as nat);
    }
}

/// Whether two numbers agree above their `n` low bytes.
spec fn rest_equal(x: int, y: int, n: nat) -> bool
    decreases n,
{
    if n == 0 {
        x == y
    } else {
        rest_equal(x / 256, y / 256, (n - 1) as nat)
    }
}

/// Two numbers below 2^64 agree above their eight low bytes.
proof fn lemma_rest_of_u64(x: int, y: int)
    requires
        0 <= x < 0x1_0000_0000_0000_0000,
        0 <= y < 0x1_0000_0000_0000_0000,
    ensures
        rest_equal(x, y, 8),
{
    reveal_with_fuel(rest_equal, 9);
    assert(x / 256 / 256 / 256 / 256 / 256 / 256 / 256 / 256 == 0);
    assert(y / 256 / 256 / 256 / 256 / 256 / 256 / 256 / 256 == 0);
}

/// Folding different bytes into the same byte gives different bytes.
proof fn lemma_fold_injective(base: u8, mixed: u8, p: u8, q: u8)
    requires
        p != q,
    ensures
        base ^ mixed ^ p != base ^ mixed ^ q,
{
    assert(p != q ==> base ^ mixed ^ p != base ^ mixed ^ q) by (bit_vector);
}

/// Different salts give different streams: the streams of one attempt that
/// are drawn with different salts differ in one of their first eight bytes.
pub proof fn lemma_salted_streams_differ(
    external: Seq<u8>,
    actor: Seq<u8>,
    timestamp: i64,
    salt_a: u8,
    salt_b: u8,
)
    requires
        salt_a != salt_b,
    ensures
        exists|i: int|
            0 <= i < 8 && #[trigger] derive_spec(external, actor, timestamp, salt_a)[i] != derive_spec(
                external,
                actor,
                timestamp,
                salt_b,
            )[i],
{
    let x = salted_timestamp(timestamp, salt_a);
    let y = salted_timestamp(timestamp, salt_b);
    lemma_salts_decorrelate(timestamp, salt_a, salt_b);
    if forall|i: int| 0 <= i < 8 ==> #[trigger] le_byte(x, i) == le_byte(y, i) {
        lemma_rest_of_u64(x, y);
        lemma_bytes_determine(x, y, 8);
    }
    let i = choose|i: int| 0 <= i < 8 && #[trigger] le_byte(x, i) != le_byte(y, i);
    lemma_le_byte_is_a_byte(x, i);
    lemma_le_byte_is_a_byte(y, i);
    lemma_fold_injective(external[i], actor[i % 32], timestamp_byte(x, i), timestamp_byte(y, i));
    assert(derive_spec(external, actor, timestamp, salt_a)[i] != derive_spec(
        external,
        actor,
        timestamp,
        salt_b,
    )[i]);
}

/// Every byte of a number is a byte.
proof fn lemma_le_byte_is_a_byte(x: int, i: int)
    ensures
        0 <= le_byte(x, i) < 256,
    decreases i,
{
    if i > 0 {
        lemma_le_byte_is_a_byte(x / 256, i - 1);
    }
}

/// From position 8 on, the stream does not depend on the time or the salt.
pub proof fn lemma_stream_tail_ignores_time(
    external: Seq<u8>,
    actor: Seq<u8>,
    time_a: i64,
    salt_a: u8,
    time_b: i64,
    salt_b: u8,
    i: int,
)
    requires
        8 <= i < 32,
    ensures
        derive_spec(external, actor, time_a, salt_a)[i] == derive_spec(
            external,
            actor,
            time_b,
            salt_b,
        )[i],
{
}

} // verus!

//! Deterministic weighted selection for lootbox openings: a seed built from
//! publicly observable call data is hashed, the first digest words feed one
//! step of a fixed bit-mixing permutation, and the drawn value picks a
//! position in the weight list by prefix sums. Every validating replica
//! reproduces the same result from the same inputs.

use vstd::prelude::*;
use vstd::string::StrSliceExecFns;
use vstd::string::StringExecFns;
use vstd::utf8::encode_utf8;

use crate::strings::dec_digits;

verus! {

/// The SHA-256 digest of a byte sequence, as computed by the sha2 crate.
pub uninterp spec fn sha256_of(data: Seq<u8>) -> Seq<u8>;

/// Relies on sha2's `Sha256`: the digest is a function of the input
/// bytes alone and is 32 bytes long.
#[verifier::external_body]
fn sha256_digest(data: &[u8]) -> (r: Vec<u8>)
    ensures
        r@ == sha256_of(data@),
        r@.len() == 32,
{
    let mut hasher = <sha2::Sha256 as sha2::Digest>::new();
    sha2::Digest::update(&mut hasher, data);
    sha2::Digest::finalize(hasher).to_vec()
}

/// Addition on 32-bit words, wrapping on overflow.
pub open spec fn wadd32(a: u32, b: u32) -> u32 {
    (((a as int) + (b as int)) % 0x1_0000_0000) as u32
}

fn wrapping_add32(a: u32, b: u32) -> (r: u32)
    ensures
        r == wadd32(a, b),
{
    let s: u64 = (a as u64) + (b as u64);
    (s % 0x1_0000_0000) as u32
}

/// Rotation of a 32-bit word left by `k` bits, `0 < k < 32`.
pub open spec fn rotl32(x: u32, k: u32) -> u32
    recommends
        0 < k < 32,
{
    (x << k) | (x >> ((32 - k) as u32))
}

fn rotate_left32(x: u32, k: u32) -> (r: u32)
    requires
        0 < k < 32,
    ensures
        r == rotl32(x, k),
{
    (x << k) | (x >> (32 - k))
}

/// A 32-bit word read from four bytes, least significant first.
pub open spec fn le_u32(b0: u8, b1: u8, b2: u8, b3: u8) -> u32 {
    (b0 + 256 * (b1 as int) + 65536 * (b2 as int) + 16777216 * (b3 as int)) as u32
}

/// Fills `dst` with 32-bit words read from `src` in little-endian order.
pub fn read_u32_into(src: &[u8], dst: &mut Vec<u32>)
    requires
        src@.len() >= 4 * old(dst)@.len(),
    ensures
        final(dst)@.len() == old(dst)@.len(),
        forall|i: int|
            0 <= i < final(dst)@.len() ==> final(dst)@[i] == le_u32(
                src@[4 * i],
                src@[4 * i + 1],
                src@[4 * i + 2],
                src@[4 * i + 3],
            ),
{
    let n = dst.len();
    let m = src.len();
    let mut i: usize = 0;
    while i < n
        invariant
            n == dst@.len(),
            m == src@.len(),
            src@.len() >= 4 * n,
            i <= n,
            forall|j: int|
                0 <= j < i ==> dst@[j] == le_u32(
                    src@[4 * j],
                    src@[4 * j + 1],
                    src@[4 * j + 2],
                    src@[4 * j + 3],
                ),
        decreases n - i,
    {
        let b0 = src[4 * i];
        let b1 = src[4 * i + 1];
        let b2 = src[4 * i + 2];
        let b3 = src[4 * i + 3];
        let w: u32 = (b0 as u32) + 256 * (b1 as u32) + 65536 * (b2 as u32) + 16777216 * (
        b3 as u32);
        dst.set(i, w);
        i = i + 1;
    }
}

/// The output word of one step of the permutation over a four-word state.
pub open spec fn mix_output(s: Seq<u32>) -> u32
    recommends
        s.len() >= 4,
{
    wadd32(rotl32(wadd32(s[0], s[3]), 7), s[0])
}

/// The successor state of one step of the permutation.
pub open spec fn mix_state(s: Seq<u32>) -> Seq<u32>
    recommends
        s.len() >= 4,
{
    let t = s[1] << 9u32;
    let s2a = s[2] ^ s[0];
    let s3a = s[3] ^ s[1];
    let s1a = s[1] ^ s2a;
    let s0a = s[0] ^ s3a;
    let s2b = s2a ^ t;
    let s3b = rotl32(s3a, 11);
    s.update(0, s0a).update(1, s1a).update(2, s2b).update(3, s3b)
}

/// Advances the four-word state one permutation step and returns the output
/// word of the step.
pub fn get_u32(dst: &mut Vec<u32>) -> (r: u32)
    requires
        old(dst)@.len() >= 4,
    ensures
        r == mix_output(old(dst)@),
        final(dst)@ == mix_state(old(dst)@),
{
    let result_starstar = wrapping_add32(rotate_left32(wrapping_add32(dst[0], dst[3]), 7), dst[0]);

    let t: u32 = dst[1] << 9;

    let s2a = dst[2] ^ dst[0];
    dst.set(2, s2a);
    let s3a = dst[3] ^ dst[1];
    dst.set(3, s3a);
    let s1a = dst[1] ^ s2a;
    dst.set(1, s1a);
    let s0a = dst[0] ^ s3a;
    dst.set(0, s0a);

    let s2b = s2a ^ t;
    dst.set(2, s2b);

    let s3b = rotate_left32(s3a, 11);
    dst.set(3, s3b);

    proof {
        assert(final(dst)@ =~= mix_state(old(dst)@));
    }
    result_starstar
}

/// The seed the selector hashes: the caller's address followed by the
/// decimal renderings of three call-context numbers, encoded as UTF-8.
pub open spec fn seed_bytes(sender: Seq<char>, a: int, b: int, c: int) -> Seq<u8> {
    encode_utf8(sender + dec_digits(a) + dec_digits(b) + dec_digits(c))
}

fn seed_string(sender: &str, a: u64, b: u64, c: u64) -> (r: String)
    ensures
        r@ == sender@ + dec_digits(a as int) + dec_digits(b as int) + dec_digits(c as int),
{
    let mut s: String = sender.to_owned();
    let da = crate::strings::u64_to_dec(a);
    s.append(da.as_str());
    let db = crate::strings::u64_to_dec(b);
    s.append(db.as_str());
    let dc = crate::strings::u64_to_dec(c);
    s.append(dc.as_str());
    s
}

/// The value in `[1, bound]` drawn from a hashed seed: the first sixteen
/// digest bytes become the four-word state, one permutation step produces
/// the output word, reduced modulo `bound` plus one.
pub open spec fn spec_draw(seed: Seq<u8>, bound: u32) -> u32
    recommends
        bound > 0,
{
    let d = sha256_of(seed);
    let s = seq![
        le_u32(d[0], d[1], d[2], d[3]),
        le_u32(d[4], d[5], d[6], d[7]),
        le_u32(d[8], d[9], d[10], d[11]),
        le_u32(d[12], d[13], d[14], d[15]),
    ];
    ((mix_output(s) as int % bound as int) + 1) as u32
}

fn draw_from_seed(seed: &str, bound: u32) -> (r: u32)
    requires
        bound > 0,
    ensures
        r == spec_draw(encode_utf8(seed@), bound),
        1 <= r <= bound,
{
    let digest = sha256_digest(seed.as_bytes());
    let mut state: Vec<u32> = vec![0u32, 0u32, 0u32, 0u32];
    read_u32_into(digest.as_slice(), &mut state);
    proof {
        let d = sha256_of(encode_utf8(seed@));
        let s = seq![
            le_u32(d[0], d[1], d[2], d[3]),
            le_u32(d[4], d[5], d[6], d[7]),
            le_u32(d[8], d[9], d[10], d[11]),
            le_u32(d[12], d[13], d[14], d[15]),
        ];
        assert(state@[0] == le_u32(d[0], d[1], d[2], d[3]));
        assert(state@[1] == le_u32(d[4], d[5], d[6], d[7]));
        assert(state@[2] == le_u32(d[8], d[9], d[10], d[11]));
        assert(state@[3] == le_u32(d[12], d[13], d[14], d[15]));
        assert(state@ =~= s);
    }
    let rng = get_u32(&mut state);
    (rng % bound) + 1
}

/// The drawn value the character managers use: seeded from the caller, the
/// block height, the candidate-list length and the transaction index (zero
/// when absent), reduced to `[1, 100]`.
pub open spec fn spec_random_1_to_100(
    sender: Seq<char>,
    height: u64,
    array_len: u32,
    tx_index: Option<u32>,
) -> u32 {
    let tx = match tx_index {
        Some(t) => t,
        None => 0u32,
    };
    spec_draw(seed_bytes(sender, height as int, array_len as int, tx as int), 100)
}

/// Deterministic pseudo-random value in `[1, 100]`, a pure function of the
/// caller address, block height, candidate-list length and transaction
/// index.
pub fn random_number_1_to_100(
    sender: &str,
    height: u64,
    array_len: u32,
    tx_index: Option<u32>,
) -> (r: u32)
    ensures
        r == spec_random_1_to_100(sender@, height, array_len, tx_index),
        1 <= r <= 100,
{
    let tx: u32 = match tx_index {
        Some(t) => t,
        None => 0,
    };
    let seed = seed_string(sender, height, array_len as u64, tx as u64);
    draw_from_seed(seed.as_str(), 100)
}

/// The drawn value the trait managers use: seeded from the caller, the
/// block time, the block height and the candidate-list length, reduced to
/// `[1, x]`.
pub open spec fn spec_random_1_to_x(
    sender: Seq<char>,
    time_nanos: u64,
    height: u64,
    array_len: u32,
    x: u32,
) -> u32 {
    spec_draw(seed_bytes(sender, time_nanos as int, height as int, array_len as int), x)
}

/// Deterministic pseudo-random value in `[1, x]`, a pure function of the
/// caller address, block time, block height and candidate-list length.
pub fn random_number_1_to_x(
    sender: &str,
    time_nanos: u64,
    height: u64,
    array_len: u32,
    x: u32,
) -> (r: u32)
    requires
        x > 0,
    ensures
        r == spec_random_1_to_x(sender@, time_nanos, height, array_len, x),
        1 <= r <= x,
{
    let seed = seed_string(sender, time_nanos, height, array_len as u64);
    draw_from_seed(seed.as_str(), x)
}

/// Two draws with identical inputs agree: selection is a pure function
/// of the caller address, block height, candidate-list length and
/// transaction index, with no entropy source — every validating replica
/// reproduces it.
pub proof fn lemma_selector_deterministic(
    sender: Seq<char>,
    height: u64,
    array_len: u32,
    tx_index: Option<u32>,
    r1: u32,
    r2: u32,
)
    requires
        r1 == spec_random_1_to_100(sender, height, array_len, tx_index),
        r2 == spec_random_1_to_100(sender, height, array_len, tx_index),
    ensures
        r1 == r2,
{
}

/// The sum of the first `n` weights.
pub open spec fn weight_sum(s: Seq<u32>, n: int) -> int
    decreases n,
{
    if n <= 0 {
        0
    } else {
        weight_sum(s, n - 1) + s[n - 1]
    }
}

/// Picks the position a drawn value lands on: the first index whose
/// cumulative weight reaches the draw.
pub fn select_weighted(possibilities: &Vec<u32>, draw: u32) -> (r: usize)
    requires
        1 <= draw,
        draw <= weight_sum(possibilities@, possibilities@.len() as int),
        weight_sum(possibilities@, possibilities@.len() as int) <= u32::MAX,
    ensures
        r < possibilities@.len(),
        weight_sum(possibilities@, r as int) < draw,
        draw <= weight_sum(possibilities@, r as int + 1),
{
    let n = possibilities.len();
    let mut current: u32 = draw;
    let mut position: usize = 0;
    proof {
        lemma_weight_sum_bounds(possibilities@, 0, n as int);
    }
    while position < n && current > possibilities[position]
        invariant
            n == possibilities@.len(),
            position <= n,
            1 <= current,
            current == draw - weight_sum(possibilities@, position as int),
            draw <= weight_sum(possibilities@, n as int),
            weight_sum(possibilities@, n as int) <= u32::MAX,
        decreases n - position,
    {
        proof {
            lemma_weight_sum_bounds(possibilities@, position as int, n as int);
        }
        current = current - possibilities[position];
        position = position + 1;
    }
    proof {
        if position == n {
            assert(current > 0 && current == draw - weight_sum(possibilities@, n as int));
        }
    }
    position
}

/// Prefix sums are monotone in the prefix length.
proof fn lemma_weight_sum_bounds(s: Seq<u32>, i: int, n: int)
    requires
        0 <= i <= n <= s.len(),
    ensures
        weight_sum(s, i) <= weight_sum(s, n),
    decreases n - i,
{
    if i < n {
        lemma_weight_sum_bounds(s, i, n - 1);
    }
}

} // verus!

//! Derivation of the winning number from the accumulated digest.
//!
//! The 32-byte digest is read as four 64-bit little-endian words; the words
//! are summed with wraparound, and the winning number is the sum modulo 25,
//! shifted into 1..=25.

use vstd::prelude::*;
use vstd::arithmetic::div_mod::{lemma_add_mod_noop, lemma_small_mod, lemma_mod_sub_multiples_vanish};

verus! {

/// The `k`-th 64-bit little-endian word of a 32-byte digest.
pub open spec fn le_word(bytes: Seq<u8>, k: int) -> int
    recommends
        bytes.len() == 32,
        0 <= k < 4,
{
    bytes[8 * k] + 256 * (bytes[8 * k + 1] + 256 * (bytes[8 * k + 2] + 256 * (bytes[8 * k + 3]
        + 256 * (bytes[8 * k + 4] + 256 * (bytes[8 * k + 5] + 256 * (bytes[8 * k + 6] + 256
        * bytes[8 * k + 7]))))))
}

/// The four words of the digest summed with wraparound addition.
pub open spec fn wrapped_word_sum(bytes: Seq<u8>) -> int
    recommends
        bytes.len() == 32,
{
    (le_word(bytes, 0) + le_word(bytes, 1) + le_word(bytes, 2) + le_word(bytes, 3))
        % 0x1_0000_0000_0000_0000
}

/// The number in 1..=25 that a digest draws.
pub open spec fn derived_number(bytes: Seq<u8>) -> u8
    recommends
        bytes.len() == 32,
{
    (wrapped_word_sum(bytes) % 25 + 1) as u8
}

/// The derived number always lies in 1..=25.
pub proof fn lemma_derived_number_range(bytes: Seq<u8>)
    ensures
        1 <= derived_number(bytes) <= 25,
{
    vstd::arithmetic::div_mod::lemma_mod_bound(
        le_word(bytes, 0) + le_word(bytes, 1) + le_word(bytes, 2) + le_word(bytes, 3),
        0x1_0000_0000_0000_0000,
    );
    vstd::arithmetic::div_mod::lemma_mod_bound(wrapped_word_sum(bytes), 25);
}

/// Reads the `k`-th 64-bit little-endian word of the digest.
fn read_le_word(digest: &Vec<u8>, k: usize) -> (w: u64)
    requires
        digest@.len() == 32,
        k < 4,
    ensures
        w == le_word(digest@, k as int),
{
    let base = 8 * k;
    let b0 = digest[base] as u64;
    let b1 = digest[base + 1] as u64;
    let b2 = digest[base + 2] as u64;
    let b3 = digest[base + 3] as u64;
    let b4 = digest[base + 4] as u64;
    let b5 = digest[base + 5] as u64;
    let b6 = digest[base + 6] as u64;
    let b7 = digest[base + 7] as u64;
    b0 + 256 * (b1 + 256 * (b2 + 256 * (b3 + 256 * (b4 + 256 * (b5 + 256 * (b6 + 256 * b7))))))
}

/// Two u64 words added with wraparound.
fn wrapping_add_u64(a: u64, b: u64) -> (s: u64)
    ensures
        s == (a + b) % 0x1_0000_0000_0000_0000,
{
    let s = a.wrapping_add(b);
    proof {
        let m = 0x1_0000_0000_0000_0000int;
        if a + b > u64::MAX {
            lemma_mod_sub_multiples_vanish(a + b, m);
            lemma_small_mod((a + b - m) as nat, m as nat);
        } else {
            lemma_small_mod((a + b) as nat, m as nat);
        }
    }
    s
}

/// Derives the winning number from an accumulated digest.
pub fn derive_number(digest: &Vec<u8>) -> (n: u8)
    requires
        digest@.len() == 32,
    ensures
        n == derived_number(digest@),
        1 <= n <= 25,
{
    let w0 = read_le_word(digest, 0);
    let w1 = read_le_word(digest, 1);
    let w2 = read_le_word(digest, 2);
    let w3 = read_le_word(digest, 3);
    let s01 = wrapping_add_u64(w0, w1);
    let s012 = wrapping_add_u64(s01, w2);
    let s = wrapping_add_u64(s012, w3);
    proof {
        let m = 0x1_0000_0000_0000_0000int;
        lemma_small_mod(w2 as nat, m as nat);
        lemma_add_mod_noop(w0 + w1, w2 as int, m);
        lemma_small_mod(w3 as nat, m as nat);
        lemma_add_mod_noop(w0 + w1 + w2, w3 as int, m);
        lemma_small_mod((s012 as int) as nat, m as nat);
        lemma_small_mod((s as int) as nat, m as nat);
    }
    (s % 25) as u8 + 1
}

} // verus!

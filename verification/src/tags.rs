//! Decoding a 32-bit tag bitmask into the ascending sequence of 1-based tag
//! numbers, and splitting a packed per-view payload into such bitmasks.

use vstd::prelude::*;
use vstd::arithmetic::power2::{pow2, lemma_pow2_unfold, lemma2_to64};

verus! {

/// The ascending sequence of tag numbers encoded by `m`, where the lowest
/// remaining bit of `m` stands for tag `b + 1`.
pub open spec fn tag_seq(m: nat, b: nat) -> Seq<u32>
    decreases m,
{
    if m == 0 {
        Seq::empty()
    } else if m % 2 == 1 {
        seq![(b + 1) as u32] + tag_seq(m / 2, (b + 1) as nat)
    } else {
        tag_seq(m / 2, (b + 1) as nat)
    }
}

/// What decoding a tag bitmask yields: tag `i + 1` for every set bit `i`,
/// in ascending order.
pub open spec fn decoded(m: u32) -> Seq<u32> {
    tag_seq(m as nat, 0)
}

/// Number of set bits of `m`.
pub open spec fn pop_count(m: nat) -> nat
    decreases m,
{
    if m == 0 {
        0
    } else {
        (m % 2 + pop_count(m / 2)) as nat
    }
}

/// Sum of the bit weights `2^(t - 1)` of a sequence of tag numbers.
pub open spec fn mask_sum(s: Seq<u32>) -> nat
    decreases s.len(),
{
    if s.len() == 0 {
        0
    } else {
        (pow2((s[0] - 1) as nat) + mask_sum(s.drop_first())) as nat
    }
}

/// Decodes a tag bitmask: returns the tag numbers of the set bits of `mask`,
/// ascending, one per set bit.
pub fn decode_tags(mask: u32) -> (r: Vec<u32>)
    ensures
        r@ == decoded(mask),
{
    let mut r: Vec<u32> = Vec::new();
    let mut rem: u32 = mask;
    let mut b: u32 = 0;
    proof {
        lemma2_to64();
        assert(decoded(mask) == r@ + tag_seq(rem as nat, b as nat)) by {
            assert(r@ + tag_seq(rem as nat, b as nat) =~= tag_seq(rem as nat, b as nat));
        }
    }
    while rem != 0
        invariant
            b <= 32,
            (rem as nat) < pow2((32 - b) as nat),
            decoded(mask) == r@ + tag_seq(rem as nat, b as nat),
        decreases rem,
    {
        proof {
            lemma2_to64();
            assert(b < 32) by {
                if b == 32 {
                    assert((rem as nat) < pow2(0));
                }
            }
            lemma_pow2_unfold((32 - b) as nat);
            assert(((rem / 2) as nat) < pow2((32 - b - 1) as nat));
        }
        let ghost prev_r = r@;
        let ghost prev_rem = rem as nat;
        let ghost prev_b = b as nat;
        if rem % 2 == 1 {
            r.push(b + 1);
            proof {
                assert(tag_seq(prev_rem, prev_b) == seq![(prev_b + 1) as u32] + tag_seq(
                    prev_rem / 2,
                    (prev_b + 1) as nat,
                ));
                assert(r@ + tag_seq(prev_rem / 2, (prev_b + 1) as nat) =~= prev_r + tag_seq(
                    prev_rem,
                    prev_b,
                ));
            }
        } else {
            proof {
                assert(tag_seq(prev_rem, prev_b) == tag_seq(prev_rem / 2, (prev_b + 1) as nat));
            }
        }
        rem = rem / 2;
        b = b + 1;
    }
    proof {
        assert(tag_seq(0, b as nat) == Seq::<u32>::empty());
        assert(r@ + Seq::<u32>::empty() =~= r@);
    }
    r
}

proof fn lemma_tag_seq_props(m: nat, b: nat)
    requires
        b <= 32,
        m < pow2((32 - b) as nat),
    ensures
        tag_seq(m, b).len() == pop_count(m),
        forall|i: int|
            0 <= i < tag_seq(m, b).len() ==> b + 1 <= #[trigger] tag_seq(m, b)[i] <= 32,
        forall|i: int, j: int|
            0 <= i < j < tag_seq(m, b).len() ==> tag_seq(m, b)[i] < tag_seq(m, b)[j],
        mask_sum(tag_seq(m, b)) == m * pow2(b),
    decreases m,
{
    lemma2_to64();
    if m == 0 {
        assert(tag_seq(m, b) == Seq::<u32>::empty());
        assert(mask_sum(tag_seq(m, b)) == 0);
    } else {
        assert(b < 32) by {
            if b == 32 {
                assert(m < pow2(0));
            }
        }
        lemma_pow2_unfold((32 - b) as nat);
        assert(m / 2 < pow2((32 - b - 1) as nat));
        lemma_tag_seq_props(m / 2, (b + 1) as nat);
        let tail = tag_seq(m / 2, (b + 1) as nat);
        lemma_pow2_unfold((b + 1) as nat);
        if m % 2 == 1 {
            let s = tag_seq(m, b);
            assert(s == seq![(b + 1) as u32] + tail);
            assert(s.drop_first() =~= tail);
            assert(s[0] == (b + 1) as u32);
            assert(mask_sum(s) == pow2(b) + mask_sum(tail));
            assert(mask_sum(tail) == (m / 2) * pow2((b + 1) as nat));
            assert(pow2(b) + (m / 2) * (2 * pow2(b)) == (2 * (m / 2) + 1) * pow2(b))
                by (nonlinear_arith);
            assert(2 * (m / 2) + 1 == m);
            assert(mask_sum(s) == m * pow2(b));
        } else {
            let s = tag_seq(m, b);
            assert(s == tail);
            assert(mask_sum(s) == (m / 2) * pow2((b + 1) as nat));
            assert((m / 2) * (2 * pow2(b)) == (2 * (m / 2)) * pow2(b)) by (nonlinear_arith);
            assert(2 * (m / 2) == m);
        }
    }
}

/// Law: for every 32-bit mask, decoding yields a strictly ascending sequence
/// of tag numbers in `1 ..= 32` whose bit weights `2^(t - 1)` sum back to the
/// mask, with exactly one tag per set bit.
pub proof fn lemma_decode_characterizes_mask(m: u32)
    ensures
        forall|i: int, j: int|
            0 <= i < j < decoded(m).len() ==> decoded(m)[i] < decoded(m)[j],
        forall|i: int| 0 <= i < decoded(m).len() ==> 1 <= #[trigger] decoded(m)[i] <= 32,
        mask_sum(decoded(m)) == m as nat,
        decoded(m).len() == pop_count(m as nat),
{
    lemma2_to64();
    lemma_tag_seq_props(m as nat, 0);
}

/// The 32-bit value of four bytes read little-endian.
pub open spec fn le32(b0: u8, b1: u8, b2: u8, b3: u8) -> u32 {
    (b0 + b1 * 0x100 + b2 * 0x10000 + b3 * 0x1000000) as u32
}

/// Reads a 32-bit value from four bytes, least significant byte first.
pub fn word_from_le(b0: u8, b1: u8, b2: u8, b3: u8) -> (r: u32)
    ensures
        r == le32(b0, b1, b2, b3),
{
    (b0 as u32) + (b1 as u32) * 0x100 + (b2 as u32) * 0x10000 + (b3 as u32) * 0x1000000
}

/// The bitmasks packed in a per-view payload: one little-endian 32-bit group
/// per view, in payload order.
pub open spec fn view_masks(p: Seq<u8>) -> Seq<u32> {
    Seq::new((p.len() / 4) as nat, |i: int| le32(p[4 * i], p[4 * i + 1], p[4 * i + 2], p[4 * i + 3]))
}

/// Splits a per-view payload into its packed little-endian 32-bit bitmasks.
pub fn split_view_tags(payload: &Vec<u8>) -> (r: Vec<u32>)
    requires
        payload@.len() % 4 == 0,
    ensures
        r@ == view_masks(payload@),
{
    let mut r: Vec<u32> = Vec::new();
    let n: usize = payload.len() / 4;
    let mut k: usize = 0;
    while k < n
        invariant
            payload@.len() % 4 == 0,
            payload@.len() <= usize::MAX,
            n == payload@.len() / 4,
            k <= n,
            r@.len() == k,
            forall|i: int| 0 <= i < k ==> r@[i] == view_masks(payload@)[i],
        decreases n - k,
    {
        proof {
            vstd::arithmetic::div_mod::lemma_fundamental_div_mod(payload@.len() as int, 4);
            assert(payload@.len() == 4 * n);
            assert(4 * k + 3 < payload@.len());
        }
        let w = word_from_le(
            payload[4 * k],
            payload[4 * k + 1],
            payload[4 * k + 2],
            payload[4 * k + 3],
        );
        r.push(w);
        k = k + 1;
    }
    proof {
        assert(r@ =~= view_masks(payload@));
    }
    r
}

/// Law: each 4-byte little-endian group of a per-view payload decodes to
/// exactly what the same 32-bit mask yields through the single-mask path.
pub proof fn lemma_view_group_matches_single(p: Seq<u8>, i: int)
    requires
        p.len() % 4 == 0,
        0 <= i < view_masks(p).len(),
    ensures
        decoded(view_masks(p)[i]) == decoded(le32(p[4 * i], p[4 * i + 1], p[4 * i + 2], p[4 * i + 3])),
{
}

} // verus!

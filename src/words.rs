//! Little-endian encoding of 32-bit words as bytes, and the integer values of
//! byte limbs.
use vstd::prelude::*;

verus! {

/// The integer denoted by four little-endian bytes.
pub open spec fn le4(b0: int, b1: int, b2: int, b3: int) -> int {
    b0 + 256 * b1 + 65536 * b2 + 16777216 * b3
}

/// The integer denoted by a sequence of little-endian bytes.
pub open spec fn limbs_value(s: Seq<u8>) -> nat
    decreases s.len(),
{
    if s.len() == 0 {
        0
    } else {
        (s[0] as nat) + 256 * limbs_value(s.drop_first())
    }
}

/// The four little-endian bytes of a word.
pub open spec fn word_bytes(w: u32) -> Seq<u8> {
    seq![(w & 0xff) as u8, ((w >> 8u32) & 0xff) as u8, ((w >> 16u32) & 0xff) as u8, ((w >> 24u32) & 0xff) as u8]
}

/// The bytes of a sequence of words, each word little-endian, in order.
pub open spec fn words_bytes(ws: Seq<u32>) -> Seq<u8>
    decreases ws.len(),
{
    if ws.len() == 0 {
        Seq::empty()
    } else {
        word_bytes(ws[0]) + words_bytes(ws.drop_first())
    }
}

/// The word denoted by the first four bytes of `b`.
pub open spec fn bytes_word(b: Seq<u8>) -> u32
    recommends
        b.len() >= 4,
{
    le4(b[0] as int, b[1] as int, b[2] as int, b[3] as int) as u32
}

pub proof fn lemma_word_bytes_value(w: u32)
    ensures
        le4(word_bytes(w)[0] as int, word_bytes(w)[1] as int, word_bytes(w)[2] as int, word_bytes(w)[3] as int)
            == w as int,
        limbs_value(word_bytes(w)) == w as nat,
{
    let b0 = w & 0xff;
    let b1 = (w >> 8u32) & 0xff;
    let b2 = (w >> 16u32) & 0xff;
    let b3 = (w >> 24u32) & 0xff;
    assert(w == b0 + 256 * b1 + 65536 * b2 + 16777216 * b3) by (bit_vector)
        requires
            b0 == w & 0xff,
            b1 == (w >> 8u32) & 0xff,
            b2 == (w >> 16u32) & 0xff,
            b3 == (w >> 24u32) & 0xff,
    ;
    assert(b0 < 256 && b1 < 256 && b2 < 256 && b3 < 256) by (bit_vector)
        requires
            b0 == w & 0xff,
            b1 == (w >> 8u32) & 0xff,
            b2 == (w >> 16u32) & 0xff,
            b3 == (w >> 24u32) & 0xff,
    ;
    let s = word_bytes(w);
    assert(s.drop_first().drop_first().drop_first().drop_first().len() == 0);
    reveal_with_fuel(limbs_value, 5);
}

/// Decoding the bytes of a word gives the word back.
pub proof fn lemma_word_round_trip(w: u32)
    ensures
        bytes_word(word_bytes(w)) == w,
        limbs_value(word_bytes(w)) == w as nat,
{
    lemma_word_bytes_value(w);
}

/// The little-endian bytes of a word.
pub fn word_to_bytes_le(w: u32) -> (r: [u8; 4])
    ensures
        r@ == word_bytes(w),
{
    let r = [(w & 0xff) as u8, ((w >> 8u32) & 0xff) as u8, ((w >> 16u32) & 0xff) as u8, ((w >> 24u32) & 0xff) as u8];
    assert(r@ =~= word_bytes(w));
    r
}

/// The word whose little-endian bytes are `b`.
pub fn bytes_to_word_le(b: [u8; 4]) -> (r: u32)
    ensures
        r as int == le4(b@[0] as int, b@[1] as int, b@[2] as int, b@[3] as int),
        r == bytes_word(b@),
        word_bytes(r) == b@,
{
    let r = (b[0] as u32) + 256 * (b[1] as u32) + 65536 * (b[2] as u32) + 16777216 * (b[3] as u32);
    proof {
        let (b0, b1, b2, b3) = (b[0] as u32, b[1] as u32, b[2] as u32, b[3] as u32);
        assert(((r & 0xff) == b0 && ((r >> 8u32) & 0xff) == b1 && ((r >> 16u32) & 0xff) == b2
            && ((r >> 24u32) & 0xff) == b3)) by (bit_vector)
            requires
                b0 < 256 && b1 < 256 && b2 < 256 && b3 < 256,
                r == b0 + 256 * b1 + 65536 * b2 + 16777216 * b3,
        ;
        assert(word_bytes(r) =~= b@);
    }
    r
}

/// The bytes of a sequence of words, little-endian within each word.
pub fn words_to_bytes_le_vec(ws: &Vec<u32>) -> (r: Vec<u8>)
    ensures
        r@ == words_bytes(ws@),
{
    let mut r: Vec<u8> = Vec::new();
    let mut i: usize = 0;
    assert(ws@.subrange(0, ws@.len() as int) =~= ws@);
    assert(r@ + words_bytes(ws@) =~= words_bytes(ws@));
    while i < ws.len()
        invariant
            i <= ws.len(),
            words_bytes(ws@) == r@ + words_bytes(ws@.subrange(i as int, ws@.len() as int)),
        decreases ws.len() - i,
    {
        let b = word_to_bytes_le(ws[i]);
        let ghost old_r = r;
        r.push(b[0]);
        r.push(b[1]);
        r.push(b[2]);
        r.push(b[3]);
        proof {
            let rest = ws@.subrange(i as int, ws@.len() as int);
            assert(rest.drop_first() =~= ws@.subrange(i + 1, ws@.len() as int));
            assert(rest[0] == ws@[i as int]);
            assert(words_bytes(rest) == word_bytes(rest[0]) + words_bytes(rest.drop_first()));
            assert(b@ == word_bytes(rest[0]));
            assert(r@ =~= old_r@ + b@);
        }
        i = i + 1;
    }
    assert(ws@.subrange(i as int, ws@.len() as int) =~= Seq::<u32>::empty());
    assert(r@ + Seq::<u8>::empty() =~= r@);
    r
}

/// The integer denoted by little-endian byte limbs (at most eight of them).
pub fn value_from_limbs_le(limbs: &[u8]) -> (r: u64)
    requires
        limbs@.len() <= 8,
    ensures
        r as nat == limbs_value(limbs@),
{
    let mut r: u64 = 0;
    let mut i: usize = limbs.len();
    proof {
        assert(limbs@.subrange(i as int, limbs@.len() as int).len() == 0);
    }
    while i > 0
        invariant
            i <= limbs@.len() <= 8,
            r as nat == limbs_value(limbs@.subrange(i as int, limbs@.len() as int)),
            r < pow256((limbs@.len() - i) as nat),
        decreases i,
    {
        i = i - 1;
        proof {
            let k = (limbs@.len() - i - 1) as nat;
            let t = limbs@.subrange(i as int, limbs@.len() as int);
            assert(t.drop_first() =~= limbs@.subrange(i + 1, limbs@.len() as int));
            lemma_pow256_step(k);
            lemma_pow256_mono(k, 7);
            reveal_with_fuel(pow256, 8);
            assert(pow256(7) == 72057594037927936);
            let hi = pow256(k);
            let b = limbs@[i as int];
            assert(r * 256 + b < 256 * hi) by (nonlinear_arith)
                requires
                    r < hi,
                    b < 256,
            ;
        }
        r = (limbs[i] as u64) + 256 * r;
    }
    assert(limbs@.subrange(0, limbs@.len() as int) =~= limbs@);
    r
}

/// 256 to the power `n`.
pub open spec fn pow256(n: nat) -> nat
    decreases n,
{
    if n == 0 {
        1
    } else {
        256 * pow256((n - 1) as nat)
    }
}

proof fn lemma_pow256_step(n: nat)
    ensures
        pow256(n + 1) == 256 * pow256(n),
{
}

proof fn lemma_pow256_mono(a: nat, b: nat)
    requires
        a <= b,
    ensures
        pow256(a) <= pow256(b),
    decreases b,
{
    if a < b {
        lemma_pow256_mono(a, (b - 1) as nat);
    }
}

} // verus!

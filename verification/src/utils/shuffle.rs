//! Random shuffling of slices with a xorshift generator.
use vstd::prelude::*;

verus! {

/// The seed that every [`ShuffleRng`] starts from.
pub const SHUFFLE_SEED: u32 = 1_406_868_647;

/// The state of the xorshift generator that [`shuffle`] draws from.
///
/// One generator is meant to be kept per thread.
pub struct ShuffleRng {
    state: u32,
}

/// One step of the xorshift32 generator.
pub open spec fn xorshift(x: u32) -> u32 {
    let a = x ^ (x << 13u32);
    let b = a ^ (a >> 17u32);
    b ^ (b << 5u32)
}

/// The generator state after `k` steps from `x`.
pub open spec fn xorshift_steps(x: u32, k: nat) -> u32
    decreases k,
{
    if k == 0 {
        x
    } else {
        xorshift(xorshift_steps(x, (k - 1) as nat))
    }
}

/// The index in `0..n` that the random value `x` selects: the high half of `x * n`
/// taken modulo 2^64.
pub open spec fn pick_index(x: u32, n: u64) -> int {
    ((x as u64).wrapping_mul(n) >> 32u64) as int
}

/// `s` with the values at positions `i` and `j` exchanged.
pub open spec fn swap_seq<T>(s: Seq<T>, i: int, j: int) -> Seq<T> {
    s.update(i, s[j]).update(j, s[i])
}

/// The sequence after the shuffle has treated positions `1..m` of `s`, starting
/// from generator state `x`: position `k` is exchanged with `pick_index` of the
/// `k`-th generator state among `0..=k`.
pub open spec fn shuffled_prefix<T>(s: Seq<T>, x: u32, m: nat) -> Seq<T>
    decreases m,
{
    if m <= 1 {
        s
    } else {
        let k = (m - 1) as nat;
        swap_seq(shuffled_prefix(s, x, k), k as int, pick_index(xorshift_steps(x, k), (k + 1) as u64))
    }
}

/// What [`shuffle`] makes of `s` from generator state `x`.
pub open spec fn shuffled<T>(s: Seq<T>, x: u32) -> Seq<T> {
    shuffled_prefix(s, x, s.len())
}

impl ShuffleRng {
    /// The current generator state.
    pub closed spec fn state(&self) -> u32 {
        self.state
    }

    /// Creates a generator at [`SHUFFLE_SEED`].
    pub fn new() -> (r: Self)
        ensures
            r.state() == SHUFFLE_SEED,
    {
        ShuffleRng { state: SHUFFLE_SEED }
    }

    /// Advances the generator by one step and returns the new state.
    fn next(&mut self) -> (r: u32)
        ensures
            r == xorshift(old(self).state()),
            final(self).state() == r,
    {
        let mut x = self.state;
        x = x ^ (x << 13u32);
        x = x ^ (x >> 17u32);
        x = x ^ (x << 5u32);
        self.state = x;
        x
    }
}

/// The high half of a 64-bit value fits in 32 bits.
proof fn lemma_high_half_fits(w: u64)
    ensures
        (w >> 32u64) < 0x1_0000_0000,
        (w >> 32u64) == w / 0x1_0000_0000,
{
    assert((w >> 32u64) < 0x1_0000_0000) by (bit_vector);
    assert((w >> 32u64) == w / 0x1_0000_0000) by (bit_vector);
}

/// The index drawn for a range of `n` values lies in `0..n`.
proof fn lemma_pick_in_range(x: u32, n: u64)
    requires
        n >= 1,
    ensures
        0 <= pick_index(x, n) < n,
{
    let w = (x as u64).wrapping_mul(n);
    lemma_high_half_fits(w);
    if n <= 0x1_0000_0000 {
        assert((x as nat) * (n as nat) < 0x1_0000_0000 * 0x1_0000_0000) by (nonlinear_arith)
            requires
                x < 0x1_0000_0000,
                n <= 0x1_0000_0000,
        ;
        vstd::arithmetic::div_mod::lemma_small_mod(
            (x as nat) * (n as nat),
            0x1_0000_0000_0000_0000,
        );
        assert(w == (x as nat) * (n as nat));
        assert(w / 0x1_0000_0000 < n) by (nonlinear_arith)
            requires
                w == (x as nat) * (n as nat),
                x < 0x1_0000_0000,
                n >= 1,
        ;
    }
}

/// Shuffling a sequence keeps its length and its values, each as often as before.
pub proof fn lemma_shuffled_is_permutation<T>(s: Seq<T>, x: u32, m: nat)
    requires
        m <= s.len(),
        s.len() <= u64::MAX,
    ensures
        shuffled_prefix(s, x, m).len() == s.len(),
        shuffled_prefix(s, x, m).to_multiset() == s.to_multiset(),
    decreases m,
{
    if m > 1 {
        let k = (m - 1) as nat;
        lemma_shuffled_is_permutation(s, x, k);
        let prev = shuffled_prefix(s, x, k);
        let j = pick_index(xorshift_steps(x, k), (k + 1) as u64);
        lemma_pick_in_range(xorshift_steps(x, k), (k + 1) as u64);
        lemma_swap_keeps_multiset(prev, k as int, j);
    }
}

/// Exchanging two values keeps the multiset of a sequence.
pub proof fn lemma_swap_keeps_multiset<T>(s: Seq<T>, i: int, j: int)
    requires
        0 <= i < s.len(),
        0 <= j < s.len(),
    ensures
        swap_seq(s, i, j).len() == s.len(),
        swap_seq(s, i, j).to_multiset() == s.to_multiset(),
{
    broadcast use vstd::seq_lib::group_to_multiset_ensures;
    broadcast use vstd::multiset::group_multiset_axioms;

    let s1 = s.update(i, s[j]);
    assert(s1.to_multiset() == s.to_multiset().insert(s[j]).remove(s[i]));
    assert(s1[j] == if i == j { s[j] } else { s[j] });
    let s2 = s1.update(j, s[i]);
    assert(s2.to_multiset() == s1.to_multiset().insert(s[i]).remove(s1[j]));
    assert(s2.to_multiset() =~= s.to_multiset());
}

/// Randomly shuffles a slice, drawing from `rng`.
///
/// Slices of length 0 or 1 are left alone and `rng` is not advanced; otherwise
/// every position `i` from 1 on is exchanged with a position drawn from `0..=i`,
/// one generator step per position.
pub fn shuffle<T>(v: &mut [T], rng: &mut ShuffleRng)
    ensures
        final(v)@.len() <= 1 ==> final(v)@ == old(v)@ && final(rng).state() == old(rng).state(),
        final(v)@.len() > 1 ==> final(v)@ == shuffled(old(v)@, old(rng).state())
            && final(rng).state() == xorshift_steps(old(rng).state(), (old(v)@.len() - 1) as nat),
        final(v)@.to_multiset() == old(v)@.to_multiset(),
{
    let len = v.len();
    if len <= 1 {
        return;
    }
    let ghost x0 = rng.state();
    let ghost s0 = v@;
    let mut i: usize = 1;
    while i < len
        invariant
            1 <= i <= len,
            len == s0.len(),
            v@ == shuffled_prefix(s0, x0, i as nat),
            rng.state() == xorshift_steps(x0, (i - 1) as nat),
        decreases len - i,
    {
        let x = rng.next();
        let n = i + 1;
        let w = (x as u64).wrapping_mul(n as u64);
        let j = (w >> 32u64) as u32 as usize;
        proof {
            lemma_shuffled_is_permutation(s0, x0, i as nat);
            lemma_high_half_fits(w);
            lemma_pick_in_range(x, n as u64);
            assert(xorshift_steps(x0, i as nat) == x);
            assert(j == pick_index(x, n as u64));
            assert(j < n);
            assert(i < v@.len());
            assert(j < v@.len());
        }
        v.swap(i, j);
        i = i + 1;
    }
    proof {
        lemma_shuffled_is_permutation(s0, x0, len as nat);
    }
}

/// `swap` on slices exchanges the values at two positions.
pub assume_specification<Item>[ <[Item]>::swap ](slice: &mut [Item], a: usize, b: usize)
    requires
        a < old(slice)@.len(),
        b < old(slice)@.len(),
    ensures
        final(slice)@ == swap_seq(old(slice)@, a as int, b as int),
;

} // verus!

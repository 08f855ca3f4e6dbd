use rand::Rng;
use vstd::prelude::*;
use vstd::seq_lib::{group_to_multiset_ensures, to_multiset_update};

verus! {

/// Number of lattice cells along each axis before the noise repeats.
pub const TABLE_SIZE: usize = 256;

/// The identity arrangement `0, 1, ..., n - 1`.
pub open spec fn identity_seq(n: nat) -> Seq<i64> {
    Seq::new(n, |i: int| i as i64)
}

/// `s` holds each of `0..n` exactly once.
pub open spec fn is_permutation_of_range(s: Seq<i64>, n: nat) -> bool {
    &&& s.len() == n
    &&& forall|i: int| 0 <= i < n ==> 0 <= #[trigger] s[i] < n
    &&& s.no_duplicates()
}

/// Relies on rand's `thread_rng` and `Rng::gen_range` over the inclusive range
/// `0..=hi`, which is never empty: the draw lies in that range.
#[verifier::external_body]
fn random_index_upto(hi: usize) -> (r: usize)
    ensures
        r <= hi,
{
    rand::thread_rng().gen_range(0..=hi)
}

/// `s` with the entries at `i` and `j` exchanged.
pub open spec fn swapped(s: Seq<i64>, i: int, j: int) -> Seq<i64> {
    s.update(i, s[j]).update(j, s[i])
}

/// Draws fit for shuffling `n` slots: one per slot, the draw for slot `k` at
/// most `k`.
pub open spec fn valid_draws(draws: Seq<usize>, n: nat) -> bool {
    &&& draws.len() == n
    &&& forall|k: int| 0 <= k < n ==> #[trigger] draws[k] <= k
}

/// The Fisher-Yates pass over slots `k - 1` down to `0`: slot `j` is exchanged
/// with slot `draws[j]`.
pub open spec fn shuffled_from(s: Seq<i64>, draws: Seq<usize>, k: int) -> Seq<i64>
    decreases k,
{
    if k <= 0 {
        s
    } else {
        shuffled_from(swapped(s, k - 1, draws[k - 1] as int), draws, k - 1)
    }
}

/// `s` shuffled by `draws`, from the last slot down to the first.
pub open spec fn shuffled_by(s: Seq<i64>, draws: Seq<usize>) -> Seq<i64> {
    shuffled_from(s, draws, s.len() as int)
}

/// `s` is what some fit draws make of `orig`.
pub open spec fn is_shuffle_of(s: Seq<i64>, orig: Seq<i64>) -> bool {
    exists|draws: Seq<usize>| valid_draws(draws, orig.len()) && s == #[trigger] shuffled_by(orig, draws)
}

/// Applies the Fisher-Yates pass that `draws` describes: from the last slot
/// down, slot `k` is exchanged with slot `draws[k]`.
pub fn shuffle_by_draws(p: &mut Vec<i64>, draws: &Vec<usize>)
    requires
        valid_draws(draws@, old(p)@.len()),
    ensures
        final(p)@ == shuffled_by(old(p)@, draws@),
        final(p)@.len() == old(p)@.len(),
        final(p)@.to_multiset() == old(p)@.to_multiset(),
{
    let n = p.len();
    let mut i: usize = n;
    while i > 0
        invariant
            i <= n,
            p@.len() == n,
            valid_draws(draws@, n as nat),
            shuffled_from(p@, draws@, i as int) == shuffled_by(old(p)@, draws@),
            p@.to_multiset() == old(p)@.to_multiset(),
        decreases i,
    {
        i = i - 1;
        let target = draws[i];
        assert(draws@[i as int] <= i);
        let a = p[i];
        let b = p[target];
        proof {
            broadcast use group_to_multiset_ensures;
            broadcast use vstd::multiset::group_multiset_axioms;

            let s = p@;
            to_multiset_update(s, i as int, b);
            to_multiset_update(s.update(i as int, b), target as int, a);
            assert(s.update(i as int, b).update(target as int, a).to_multiset() =~= s.to_multiset());
            assert(swapped(s, i as int, target as int) == s.update(i as int, b).update(target as int, a));
        }
        p.set(i, b);
        p.set(target, a);
    }
}

/// Shuffles `p` in place: draws an index at most `k` for each slot `k`, then
/// applies `shuffle_by_draws`. Whatever the random draws, the result is a
/// Fisher-Yates shuffle of the input, and so a rearrangement of it.
pub fn permute(p: &mut Vec<i64>)
    ensures
        final(p)@.len() == old(p)@.len(),
        final(p)@.to_multiset() == old(p)@.to_multiset(),
        is_shuffle_of(final(p)@, old(p)@),
{
    let n = p.len();
    let mut draws: Vec<usize> = Vec::new();
    let mut k: usize = 0;
    while k < n
        invariant
            k <= n,
            draws@.len() == k,
            forall|j: int| 0 <= j < k ==> #[trigger] draws@[j] <= j,
        decreases n - k,
    {
        draws.push(0);
        k = k + 1;
    }
    let mut i: usize = n;
    while i > 0
        invariant
            i <= n,
            valid_draws(draws@, n as nat),
        decreases i,
    {
        i = i - 1;
        let target = random_index_upto(i);
        draws.set(i, target);
    }
    shuffle_by_draws(p, &draws);
    assert(valid_draws(draws@, old(p)@.len()) && p@ == shuffled_by(old(p)@, draws@));
}

/// A sequence with the same elements as `0..n` holds each of them exactly once.
pub proof fn lemma_rearranged_identity(s: Seq<i64>, n: nat)
    requires
        n <= TABLE_SIZE,
        s.to_multiset() == identity_seq(n).to_multiset(),
    ensures
        is_permutation_of_range(s, n),
{
    broadcast use group_to_multiset_ensures;
    broadcast use vstd::multiset::group_multiset_axioms;

    let id = identity_seq(n);
    assert(id.no_duplicates());
    id.lemma_multiset_has_no_duplicates();
    s.lemma_multiset_has_no_duplicates_conv();
    assert forall|i: int| 0 <= i < s.len() implies 0 <= #[trigger] s[i] < n by {
        assert(s.contains(s[i]));
        assert(id.to_multiset().count(s[i]) > 0);
        assert(id.contains(s[i]));
        let j = choose|j: int| 0 <= j < id.len() && id[j] == s[i];
        assert(id[j] == j as i64);
    }
    assert(s.len() == s.to_multiset().len());
    assert(id.len() == id.to_multiset().len());
}

/// A random permutation of `0..TABLE_SIZE`, one axis of the noise lattice hash.
pub fn perlin_generate_perm() -> (r: Vec<i64>)
    ensures
        is_shuffle_of(r@, identity_seq(TABLE_SIZE as nat)),
        r@.to_multiset() == identity_seq(TABLE_SIZE as nat).to_multiset(),
        is_permutation_of_range(r@, TABLE_SIZE as nat),
{
    let mut p: Vec<i64> = Vec::new();
    let mut k: usize = 0;
    while k < TABLE_SIZE
        invariant
            k <= TABLE_SIZE,
            p@ == identity_seq(k as nat),
        decreases TABLE_SIZE - k,
    {
        p.push(k as i64);
        k = k + 1;
        assert(p@ =~= identity_seq(k as nat));
    }
    permute(&mut p);
    proof {
        lemma_rearranged_identity(p@, TABLE_SIZE as nat);
    }
    p
}

/// The three per-axis permutations that hash an integer lattice point to one
/// of `TABLE_SIZE` gradient slots.
pub struct LatticeHash {
    pub perm_x: Vec<i64>,
    pub perm_y: Vec<i64>,
    pub perm_z: Vec<i64>,
}

/// The slot that lattice point `(i, j, k)` hashes to: each coordinate, taken
/// modulo the table size, picks an entry of its axis table; the three entries
/// are combined by exclusive or.
pub open spec fn lattice_slot(px: Seq<i64>, py: Seq<i64>, pz: Seq<i64>, i: usize, j: usize, k: usize) -> int {
    (px[(i % TABLE_SIZE) as int] ^ py[(j % TABLE_SIZE) as int] ^ pz[(k % TABLE_SIZE) as int]) as int
}

impl LatticeHash {
    pub open spec fn wf(&self) -> bool {
        &&& is_permutation_of_range(self.perm_x@, TABLE_SIZE as nat)
        &&& is_permutation_of_range(self.perm_y@, TABLE_SIZE as nat)
        &&& is_permutation_of_range(self.perm_z@, TABLE_SIZE as nat)
    }

    /// Three independently shuffled axis tables.
    pub fn new() -> (r: LatticeHash)
        ensures
            r.wf(),
            is_shuffle_of(r.perm_x@, identity_seq(TABLE_SIZE as nat)),
            is_shuffle_of(r.perm_y@, identity_seq(TABLE_SIZE as nat)),
            is_shuffle_of(r.perm_z@, identity_seq(TABLE_SIZE as nat)),
    {
        LatticeHash {
            perm_x: perlin_generate_perm(),
            perm_y: perlin_generate_perm(),
            perm_z: perlin_generate_perm(),
        }
    }

    /// The gradient slot of lattice point `(i, j, k)`; the lattice repeats every
    /// `TABLE_SIZE` cells along each axis.
    pub fn slot(&self, i: usize, j: usize, k: usize) -> (r: usize)
        requires
            self.wf(),
        ensures
            r < TABLE_SIZE,
            r as int == lattice_slot(self.perm_x@, self.perm_y@, self.perm_z@, i, j, k),
    {
        let a = self.perm_x[i % TABLE_SIZE];
        let b = self.perm_y[j % TABLE_SIZE];
        let c = self.perm_z[k % TABLE_SIZE];
        assert(0 <= a < 256 && 0 <= b < 256 && 0 <= c < 256 ==> 0 <= a ^ b ^ c < 256) by (bit_vector);
        (a ^ b ^ c) as usize
    }
}

} // verus!

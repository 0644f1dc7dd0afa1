use vstd::prelude::*;
use vstd::arithmetic::div_mod::lemma_fundamental_div_mod;
use vstd::arithmetic::div_mod::lemma_fundamental_div_mod_converse;
use vstd::arithmetic::div_mod::lemma_mod_bound;

use crate::density::Density;
use crate::length::Length;

verus! {

/// Whether step `i` of the Euclidean pattern with `density` active steps over
/// `length` slots is active. The active steps are the `i` whose multiple of
/// `density` crosses a slot boundary, which spreads them as evenly as the
/// grid allows; step 0 is always active.
pub open spec fn euclid_on(density: int, length: int, i: int) -> bool {
    (i * density) % length < density
}

/// The whole Euclidean pattern as a sequence of `length` step states.
pub open spec fn euclid_pattern(density: int, length: int) -> Seq<bool> {
    Seq::new(length as nat, |i: int| euclid_on(density, length, i))
}

/// How many steps of a pattern are active.
pub open spec fn count_on(s: Seq<bool>) -> int
    decreases s.len(),
{
    if s.len() == 0 {
        0
    } else {
        count_on(s.drop_last()) + if s.last() {
            1int
        } else {
            0
        }
    }
}

/// Active steps among the first `k` pattern indices.
pub open spec fn count_on_up_to(density: int, length: int, k: int) -> int
    decreases k,
{
    if k <= 0 {
        0
    } else {
        count_on_up_to(density, length, k - 1) + if euclid_on(density, length, k - 1) {
            1int
        } else {
            0
        }
    }
}

/// Subtracting `d` from `a` lowers the quotient by `l` exactly when the
/// remainder of `a` is below `d`: the step test of the Euclidean pattern.
proof fn lemma_div_step(a: int, d: int, l: int)
    requires
        0 < d <= l,
    ensures
        a / l - (a - d) / l == if a % l < d {
            1int
        } else {
            0
        },
{
    lemma_fundamental_div_mod(a, l);
    lemma_mod_bound(a, l);
    let q = a / l;
    let r = a % l;
    assert(l * q == q * l) by (nonlinear_arith);
    if r < d {
        assert((q - 1) * l + (r - d + l) == q * l + r - d) by (nonlinear_arith);
        lemma_fundamental_div_mod_converse(a - d, l, q - 1, r - d + l);
    } else {
        lemma_fundamental_div_mod_converse(a - d, l, q, r - d);
    }
}

/// Closed form of the prefix count: the first `k` indices hold
/// `((k - 1) * density) / length + 1` active steps.
proof fn lemma_count_up_to(density: int, length: int, k: int)
    requires
        1 <= density <= length,
        1 <= k,
    ensures
        count_on_up_to(density, length, k) == ((k - 1) * density) / length + 1,
    decreases k,
{
    if k == 1 {
        lemma_fundamental_div_mod_converse(0, length, 0, 0);
        assert(euclid_on(density, length, 0));
        reveal_with_fuel(count_on_up_to, 2);
        assert(count_on_up_to(density, length, 1) == 1);
    } else {
        lemma_count_up_to(density, length, k - 1);
        assert((k - 1) * density - density == (k - 2) * density) by (nonlinear_arith);
        lemma_div_step((k - 1) * density, density, length);
    }
}

/// The sequence-level count of a pattern prefix agrees with the index count.
proof fn lemma_count_take(density: int, length: int, k: int)
    requires
        0 <= k <= length,
    ensures
        count_on(euclid_pattern(density, length).take(k)) == count_on_up_to(density, length, k),
    decreases k,
{
    let p = euclid_pattern(density, length);
    if k > 0 {
        lemma_count_take(density, length, k - 1);
        assert(p.take(k).drop_last() =~= p.take(k - 1));
        assert(p.take(k).last() == euclid_on(density, length, k - 1));
    }
}

/// A Euclidean pattern of `density` active steps over `length` slots has
/// exactly `length` entries, exactly `density` of them active.
pub proof fn lemma_euclid_density(density: int, length: int)
    requires
        1 <= density <= length,
    ensures
        euclid_pattern(density, length).len() == length,
        count_on(euclid_pattern(density, length)) == density,
{
    let p = euclid_pattern(density, length);
    lemma_count_up_to(density, length, length);
    assert((length - 1) * density == (density - 1) * length + (length - density))
        by (nonlinear_arith);
    lemma_fundamental_div_mod_converse(
        (length - 1) * density,
        length,
        density - 1,
        length - density,
    );
    lemma_count_take(density, length, length);
    assert(p.take(length as int) =~= p);
}

/// Counting a pattern's active steps from either end agrees: the total is
/// the first step plus the count over the rest.
pub proof fn lemma_count_on_split_first(s: Seq<bool>)
    requires
        s.len() >= 1,
    ensures
        count_on(s) == (if s[0] {
            1int
        } else {
            0
        }) + count_on(s.drop_first()),
    decreases s.len(),
{
    if s.len() == 1 {
        assert(s.drop_last() =~= Seq::<bool>::empty());
        assert(s.drop_first() =~= Seq::<bool>::empty());
    } else {
        lemma_count_on_split_first(s.drop_last());
        assert(s.drop_last().drop_first() =~= s.drop_first().drop_last());
        assert(s.drop_first().last() == s.last());
    }
}

/// Fills `pattern` with the Euclidean rhythm of `density` active steps spread
/// evenly over `length` slots; deterministic in its two arguments.
pub fn euclid(density: Density, length: Length, pattern: &mut Vec<bool>)
    requires
        density.wf(),
        length.wf(),
        density.0 <= length.0,
    ensures
        final(pattern)@ == euclid_pattern(density.0 as int, length.0 as int),
        final(pattern)@.len() == length.0,
        count_on(final(pattern)@) == density.0,
{
    let d = density.0;
    let l = length.0;
    pattern.clear();
    let mut i: u32 = 0;
    while i < l
        invariant
            1 <= d <= l <= 16,
            i <= l,
            pattern@.len() == i,
            forall|j: int|
                0 <= j < i ==> pattern@[j] == euclid_on(d as int, l as int, j),
        decreases l - i,
    {
        proof {
            assert(i * d < 256) by (nonlinear_arith)
                requires
                    i < 16,
                    d <= 16,
            ;
        }
        pattern.push((i * d) % l < d);
        i = i + 1;
    }
    assert(pattern@ =~= euclid_pattern(d as int, l as int));
    proof {
        lemma_euclid_density(d as int, l as int);
    }
}

} // verus!

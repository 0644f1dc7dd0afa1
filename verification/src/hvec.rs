use vstd::prelude::*;

use crate::config::OutputConfig;

verus! {

#[verifier::external_type_specification]
#[verifier::external_body]
#[verifier::reject_recursive_types(T)]
pub struct ExHeaplessVec<T, const N: usize>(heapless::Vec<T, N>);

/// The channel configurations a bounded vector holds, in order.
pub uninterp spec fn config_items(v: heapless::Vec<OutputConfig, 4>) -> Seq<OutputConfig>;

/// The tap timestamps a bounded vector holds, in order.
pub uninterp spec fn stamp_items(v: heapless::Vec<u64, 8>) -> Seq<u64>;

/// Relies on heapless::Vec::new: a fresh vector is empty.
#[verifier::external_body]
pub fn config_vec_new() -> (v: heapless::Vec<OutputConfig, 4>)
    ensures
        config_items(v) == Seq::<OutputConfig>::empty(),
{
    heapless::Vec::new()
}

/// Relies on heapless::Vec::push: below capacity it appends the item.
#[verifier::external_body]
pub fn config_vec_push(v: &mut heapless::Vec<OutputConfig, 4>, c: OutputConfig)
    requires
        config_items(*old(v)).len() < 4,
    ensures
        config_items(*final(v)) == config_items(*old(v)).push(c),
{
    let _ = v.push(c);
}

/// Relies on heapless::Vec::len: how many items the vector holds.
#[verifier::external_body]
pub fn config_vec_len(v: &heapless::Vec<OutputConfig, 4>) -> (n: usize)
    ensures
        n == config_items(*v).len(),
{
    v.len()
}

/// Relies on the slice view of heapless::Vec: the item at an in-range index.
#[verifier::external_body]
pub fn config_vec_get(v: &heapless::Vec<OutputConfig, 4>, i: usize) -> (c: OutputConfig)
    requires
        i < config_items(*v).len(),
    ensures
        c == config_items(*v)[i as int],
{
    v[i]
}

/// Relies on the slice view of heapless::Vec: writing an in-range index
/// replaces that item and no other.
#[verifier::external_body]
pub fn config_vec_set(v: &mut heapless::Vec<OutputConfig, 4>, i: usize, c: OutputConfig)
    requires
        i < config_items(*old(v)).len(),
    ensures
        config_items(*final(v)) == config_items(*old(v)).update(i as int, c),
{
    v[i] = c;
}

/// Relies on heapless::Vec::new: a fresh vector is empty.
#[verifier::external_body]
pub fn stamp_vec_new() -> (v: heapless::Vec<u64, 8>)
    ensures
        stamp_items(v) == Seq::<u64>::empty(),
{
    heapless::Vec::new()
}

/// Relies on heapless::Vec::push: below capacity it appends the item.
#[verifier::external_body]
pub fn stamp_vec_push(v: &mut heapless::Vec<u64, 8>, t: u64)
    requires
        stamp_items(*old(v)).len() < 8,
    ensures
        stamp_items(*final(v)) == stamp_items(*old(v)).push(t),
{
    let _ = v.push(t);
}

/// Relies on heapless::Vec::len: how many items the vector holds.
#[verifier::external_body]
pub fn stamp_vec_len(v: &heapless::Vec<u64, 8>) -> (n: usize)
    ensures
        n == stamp_items(*v).len(),
{
    v.len()
}

/// Relies on the slice view of heapless::Vec: the item at an in-range index.
#[verifier::external_body]
pub fn stamp_vec_get(v: &heapless::Vec<u64, 8>, i: usize) -> (t: u64)
    requires
        i < stamp_items(*v).len(),
    ensures
        t == stamp_items(*v)[i as int],
{
    v[i]
}

/// Relies on heapless::Vec::clear: afterwards the vector is empty.
#[verifier::external_body]
pub fn stamp_vec_clear(v: &mut heapless::Vec<u64, 8>)
    ensures
        stamp_items(*final(v)) == Seq::<u64>::empty(),
{
    v.clear();
}

/// Relies on heapless::Vec::remove: taking index 0 returns the first item
/// and shifts the rest down by one.
#[verifier::external_body]
pub fn stamp_vec_remove_first(v: &mut heapless::Vec<u64, 8>) -> (t: u64)
    requires
        stamp_items(*old(v)).len() >= 1,
    ensures
        t == stamp_items(*old(v))[0],
        stamp_items(*final(v)) == stamp_items(*old(v)).subrange(
            1,
            stamp_items(*old(v)).len() as int,
        ),
{
    v.remove(0)
}

} // verus!

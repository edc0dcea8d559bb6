use smallvec::SmallVec;
use vstd::prelude::*;

use crate::bot::BotDifficulty;

verus! {

/// Short list of entities, stored inline (a `SmallVec` of eight entities).
#[verifier::external_body]
pub struct EntityList {
    inner: SmallVec<[u64; 8]>,
}

/// The entities of the list, in insertion order.
pub uninterp spec fn entity_list(v: EntityList) -> Seq<u64>;

/// Calls `SmallVec::new`: the list is empty.
#[verifier::external_body]
pub fn entity_list_new() -> (r: EntityList)
    ensures
        entity_list(r) == Seq::<u64>::empty(),
{
    EntityList { inner: SmallVec::new() }
}

/// Calls `SmallVec::push`: `e` is appended at the end.
#[verifier::external_body]
pub fn entity_list_push(v: &mut EntityList, e: u64)
    ensures
        entity_list(*final(v)) == entity_list(*old(v)).push(e),
{
    v.inner.push(e)
}

/// Calls `contains` on the slice that the `SmallVec` derefs to: whether `e` is in the list.
#[verifier::external_body]
pub fn entity_list_contains(v: &EntityList, e: u64) -> (r: bool)
    ensures
        r == entity_list(*v).contains(e),
{
    v.inner.contains(&e)
}

/// Short list of (entity, counter) pairs, stored inline (a `SmallVec` of eight pairs).
#[verifier::external_body]
pub struct EntityCounts {
    inner: SmallVec<[(u64, usize); 8]>,
}

/// The pairs of the list, in insertion order.
pub uninterp spec fn entity_counts(v: EntityCounts) -> Seq<(u64, usize)>;

/// Calls `SmallVec::new`: the list is empty.
#[verifier::external_body]
pub fn entity_counts_new() -> (r: EntityCounts)
    ensures
        entity_counts(r) == Seq::<(u64, usize)>::empty(),
{
    EntityCounts { inner: SmallVec::new() }
}

/// Calls `SmallVec::len`: the number of pairs.
#[verifier::external_body]
pub fn entity_counts_len(v: &EntityCounts) -> (r: usize)
    ensures
        r == entity_counts(*v).len(),
{
    v.inner.len()
}

/// Calls `SmallVec::push`: `p` is appended at the end.
#[verifier::external_body]
pub fn entity_counts_push(v: &mut EntityCounts, p: (u64, usize))
    ensures
        entity_counts(*final(v)) == entity_counts(*old(v)).push(p),
{
    v.inner.push(p)
}

/// Indexes the `SmallVec` (through its slice): the pair at `i`.
#[verifier::external_body]
pub fn entity_counts_get(v: &EntityCounts, i: usize) -> (r: (u64, usize))
    requires
        i < entity_counts(*v).len(),
    ensures
        r == entity_counts(*v)[i as int],
{
    v.inner[i]
}

/// Writes through the mutable index of the `SmallVec` (through its slice): the pair at `i`
/// becomes `p`.
#[verifier::external_body]
pub fn entity_counts_set(v: &mut EntityCounts, i: usize, p: (u64, usize))
    requires
        i < entity_counts(*old(v)).len(),
    ensures
        entity_counts(*final(v)) == entity_counts(*old(v)).update(i as int, p),
{
    v.inner[i] = p
}

/// Difficulties that a bot strategy supports, stored inline (a `SmallVec` of three).
#[verifier::external_body]
pub struct DifficultyOptions {
    inner: SmallVec<[BotDifficulty; 3]>,
}

/// The difficulties of the list, in insertion order.
pub uninterp spec fn difficulty_options(v: DifficultyOptions) -> Seq<BotDifficulty>;

/// Calls `SmallVec::new`: the list is empty.
#[verifier::external_body]
pub fn difficulty_options_new() -> (r: DifficultyOptions)
    ensures
        difficulty_options(r) == Seq::<BotDifficulty>::empty(),
{
    DifficultyOptions { inner: SmallVec::new() }
}

/// Calls `SmallVec::push`: `d` is appended at the end.
#[verifier::external_body]
pub fn difficulty_options_push(v: &mut DifficultyOptions, d: BotDifficulty)
    ensures
        difficulty_options(*final(v)) == difficulty_options(*old(v)).push(d),
{
    v.inner.push(d)
}

/// Calls `SmallVec::len`: the number of difficulties.
#[verifier::external_body]
pub fn difficulty_options_len(v: &DifficultyOptions) -> (r: usize)
    ensures
        r == difficulty_options(*v).len(),
{
    v.inner.len()
}

/// Indexes the `SmallVec` (through its slice): the difficulty at `i`.
#[verifier::external_body]
pub fn difficulty_options_get(v: &DifficultyOptions, i: usize) -> (r: BotDifficulty)
    requires
        i < difficulty_options(*v).len(),
    ensures
        r == difficulty_options(*v)[i as int],
{
    v.inner[i]
}

/// Whether `d` is in the list.
pub fn difficulty_options_contains(v: &DifficultyOptions, d: BotDifficulty) -> (r: bool)
    ensures
        r == difficulty_options(*v).contains(d),
{
    let n = difficulty_options_len(v);
    let mut i: usize = 0;
    while i < n
        invariant
            i <= n,
            n == difficulty_options(*v).len(),
            forall|j: int| 0 <= j < i ==> difficulty_options(*v)[j] != d,
        decreases n - i,
    {
        let e = difficulty_options_get(v, i);
        if e == d {
            assert(difficulty_options(*v)[i as int] == d);
            return true;
        }
        i += 1;
    }
    false
}

} // verus!

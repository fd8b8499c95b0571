//! Small arithmetic and memoisation helpers.

use std::collections::HashMap;
use vstd::prelude::*;

verus! {

broadcast use vstd::std_specs::hash::group_hash_axioms;

/// Adds two numbers; the sum must fit in a `u64`.
pub fn add(left: u64, right: u64) -> (sum: u64)
    requires
        left + right <= u64::MAX,
    ensures
        sum == left + right,
{
    left + right
}

/// An axis-aligned box given by its width and height.
#[derive(Debug)]
pub struct Rect {
    pub w: u32,
    pub h: u32,
}

/// `outer` can hold `inner` when it is strictly wider and strictly taller.
pub open spec fn holds(outer: Rect, inner: Rect) -> bool {
    outer.w > inner.w && outer.h > inner.h
}

impl Rect {
    /// Whether `other` fits strictly inside `self`.
    pub fn can_hold(&self, other: &Rect) -> (r: bool)
        ensures
            r == holds(*self, *other),
    {
        self.w > other.w && self.h > other.h
    }
}

/// Holding is a strict order: no box holds itself, and it is transitive,
/// so two boxes never hold each other.
pub proof fn law_holds_is_strict_order(a: Rect, b: Rect, c: Rect)
    ensures
        !holds(a, a),
        holds(a, b) ==> !holds(b, a),
        holds(a, b) && holds(b, c) ==> holds(a, c),
{
}

/// Memoises a function of `u32`: each argument is computed once.
pub struct Cacher<T> where T: Fn(u32) -> u32 {
    run: T,
    inner_value: HashMap<u32, u32>,
}

impl<T> Cacher<T> where T: Fn(u32) -> u32 {
    /// The function being memoised.
    pub closed spec fn runner(&self) -> T {
        self.run
    }

    /// The results computed so far, by argument.
    pub closed spec fn cache(&self) -> Map<u32, u32> {
        self.inner_value@
    }

    /// Every cached value is one that the function can return for its key.
    pub closed spec fn wf(&self) -> bool {
        forall|k: u32| #[trigger]
            self.inner_value@.contains_key(k) ==> call_ensures(self.run, (k,), self.inner_value@[k])
    }

    pub fn new(cal: T) -> (c: Self)
        ensures
            c.wf(),
            c.runner() == cal,
            c.cache() == Map::<u32, u32>::empty(),
    {
        Cacher { run: cal, inner_value: HashMap::new() }
    }

    /// Returns the cached result for `args`, computing and caching it first
    /// when it is not there yet; only then is the function called, so only
    /// then must it accept `args`.
    pub fn value(&mut self, args: u32) -> (r: u32)
        requires
            old(self).wf(),
            !old(self).cache().contains_key(args) ==> call_requires(old(self).runner(), (args,)),
        ensures
            final(self).wf(),
            value_step(old(self).runner(), old(self).cache(), args, r, final(self).runner(), final(self).cache()),
    {
        let value_by_key = self.inner_value.get(&args);
        match value_by_key {
            Some(v) => *v,
            None => {
                let result = (self.run)(args);
                self.inner_value.insert(args, result);
                result
            },
        }
    }
}

/// What one call of `value(args)` does: the function stays the same, the
/// result is a value the function returns for `args`, a cached result is
/// returned as it is, and a fresh one is added to the cache.
pub open spec fn value_step<T: Fn(u32) -> u32>(
    run0: T,
    cache0: Map<u32, u32>,
    args: u32,
    r: u32,
    run1: T,
    cache1: Map<u32, u32>,
) -> bool {
    &&& run1 == run0
    &&& call_ensures(run0, (args,), r)
    &&& cache1.contains_key(args)
    &&& cache1[args] == r
    &&& cache0.contains_key(args) ==> r == cache0[args] && cache1 == cache0
    &&& !cache0.contains_key(args) ==> cache1 == cache0.insert(args, r)
}

/// Asking twice for the same argument gives the same answer, and the second
/// call leaves the cache as the first one left it.
pub proof fn law_value_is_memoised<T: Fn(u32) -> u32>(
    run0: T,
    cache0: Map<u32, u32>,
    args: u32,
    r1: u32,
    run1: T,
    cache1: Map<u32, u32>,
    r2: u32,
    run2: T,
    cache2: Map<u32, u32>,
)
    requires
        value_step(run0, cache0, args, r1, run1, cache1),
        value_step(run1, cache1, args, r2, run2, cache2),
    ensures
        r2 == r1,
        cache2 == cache1,
{
}

} // verus!

use std::sync::Arc;
use vstd::prelude::*;

verus! {

/// A rule whose predicate `M` yields a suspendable boolean, with a shared tag `K`.
pub struct AsyncDynMagic<M, K> {
    matcher: M,
    kind: Arc<K>,
    max_bytes_read: usize,
}

impl<M, K> AsyncDynMagic<M, K> {
    pub closed spec fn spec_matcher(&self) -> M {
        self.matcher
    }

    pub closed spec fn spec_kind(&self) -> K {
        *self.kind
    }

    pub closed spec fn spec_max_bytes_read(&self) -> usize {
        self.max_bytes_read
    }

    /// A rule from its predicate, its tag and an advisory read budget.
    pub fn new(matcher: M, kind: K, max_bytes_read: usize) -> (r: Self)
        ensures
            r.spec_matcher() == matcher,
            r.spec_kind() == kind,
            r.spec_max_bytes_read() == max_bytes_read,
    {
        AsyncDynMagic { matcher, kind: Arc::new(kind), max_bytes_read }
    }

    /// The predicate, for the caller that awaits it.
    pub fn matcher(&self) -> (r: &M)
        ensures
            *r == self.spec_matcher(),
    {
        &self.matcher
    }

    /// A shared handle on the tag.
    pub fn kind_arc(&self) -> (r: Arc<K>)
        ensures
            *r == self.spec_kind(),
    {
        Arc::clone(&self.kind)
    }

    pub fn kind(&self) -> (r: &K)
        ensures
            *r == self.spec_kind(),
    {
        &self.kind
    }

    /// The advisory budget; the engine does not enforce it.
    pub fn max_bytes_read(&self) -> (r: usize)
        ensures
            r == self.spec_max_bytes_read(),
    {
        self.max_bytes_read
    }
}

/// What a sequential scan over `count` rules does next.
#[derive(Clone, Copy, Debug, PartialEq, Eq, Structural)]
pub enum ScanStep {
    /// Await the predicate of this rule.
    Evaluate(usize),
    /// This rule accepted: a first-match scan ends with its tag.
    Found(usize),
    /// No rule is left to evaluate.
    Exhausted,
}

/// The first step of a scan over `count` rules.
pub fn scan_start(count: usize) -> (s: ScanStep)
    ensures
        s == (if count == 0 {
            ScanStep::Exhausted
        } else {
            ScanStep::Evaluate(0)
        }),
{
    if count == 0 {
        ScanStep::Exhausted
    } else {
        ScanStep::Evaluate(0)
    }
}

/// The step of a first-match scan over `count` rules after rule `index` resolved to `accepted`:
/// stop at the first acceptance, otherwise go on in rule order.
pub fn first_match_next(count: usize, index: usize, accepted: bool) -> (s: ScanStep)
    requires
        index < count,
    ensures
        s == (if accepted {
            ScanStep::Found(index)
        } else if index + 1 < count {
            ScanStep::Evaluate((index + 1) as usize)
        } else {
            ScanStep::Exhausted
        }),
{
    if accepted {
        ScanStep::Found(index)
    } else if index + 1 < count {
        ScanStep::Evaluate(index + 1)
    } else {
        ScanStep::Exhausted
    }
}

/// The step of a scan that collects every accepting rule, after rule `index` resolved: go on in
/// rule order whatever the outcome.
pub fn all_matches_next(count: usize, index: usize) -> (s: ScanStep)
    requires
        index < count,
    ensures
        s == (if index + 1 < count {
            ScanStep::Evaluate((index + 1) as usize)
        } else {
            ScanStep::Exhausted
        }),
{
    if index + 1 < count {
        ScanStep::Evaluate(index + 1)
    } else {
        ScanStep::Exhausted
    }
}

} // verus!

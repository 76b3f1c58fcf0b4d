use vstd::prelude::*;

use crate::signatures::{byte_seqs, default_matches, spec_default_matches};

verus! {

/// How a custom rule decides a match. `F` is the caller's predicate type; a list of plain
/// functions can use `fn(&[u8]) -> bool`.
pub enum CustomMatchRules<F> {
    /// One of the rule's signatures at one of its offsets.
    Default,
    /// The predicate alone decides.
    WithFn(F),
    /// At least one predicate accepts.
    AnyMatches(Vec<F>),
    /// Every predicate accepts.
    AllMatches(Vec<F>),
}

/// A rule of the generic engine: match criteria and the tag `K` returned on a match.
pub struct MagicCustom<K, F> {
    pub signatures: Vec<Vec<u8>>,
    pub offsets: Vec<usize>,
    /// Header bytes this rule needs; the engine leaves enforcing it to the caller.
    pub max_bytes_read: usize,
    pub kind: K,
    pub rules: CustomMatchRules<F>,
}

/// Every predicate of `fs` may be called on `bytes`.
pub open spec fn all_callable<F: Fn(&[u8]) -> bool>(fs: Seq<F>, bytes: &[u8]) -> bool {
    forall|i: int| 0 <= i < fs.len() ==> call_requires(#[trigger] fs[i], (bytes,))
}

/// Some predicate of `fs` can return true on `bytes`.
pub open spec fn some_gives<F: Fn(&[u8]) -> bool>(fs: Seq<F>, bytes: &[u8], b: bool) -> bool {
    exists|i: int| 0 <= i < fs.len() && call_ensures(#[trigger] fs[i], (bytes,), b)
}

/// Every predicate of `fs` can return `b` on `bytes`.
pub open spec fn every_gives<F: Fn(&[u8]) -> bool>(fs: Seq<F>, bytes: &[u8], b: bool) -> bool {
    forall|i: int| 0 <= i < fs.len() ==> call_ensures(#[trigger] fs[i], (bytes,), b)
}

impl<F: Fn(&[u8]) -> bool> CustomMatchRules<F> {
    /// The predicates of this strategy may be called on `bytes`.
    pub open spec fn callable(&self, bytes: &[u8]) -> bool {
        match self {
            CustomMatchRules::Default => true,
            CustomMatchRules::WithFn(f) => call_requires(*f, (bytes,)),
            CustomMatchRules::AnyMatches(fs) => all_callable(fs@, bytes),
            CustomMatchRules::AllMatches(fs) => all_callable(fs@, bytes),
        }
    }

    /// Evaluating the predicates of this strategy on `bytes` can decide `r`: a single predicate
    /// returned `r`; for any-of, true means one returned true and false means all returned
    /// false; for all-of, the other way round.
    pub open spec fn predicates_give(&self, bytes: &[u8], r: bool) -> bool {
        match self {
            CustomMatchRules::Default => false,
            CustomMatchRules::WithFn(f) => call_ensures(*f, (bytes,), r),
            CustomMatchRules::AnyMatches(fs) => if r {
                some_gives(fs@, bytes, true)
            } else {
                every_gives(fs@, bytes, false)
            },
            CustomMatchRules::AllMatches(fs) => if r {
                every_gives(fs@, bytes, true)
            } else {
                some_gives(fs@, bytes, false)
            },
        }
    }
}

impl<K, F: Fn(&[u8]) -> bool> MagicCustom<K, F> {
    /// Evaluating this rule on `bytes` can give `r`.
    pub open spec fn may_match(&self, bytes: &[u8], r: bool) -> bool {
        match self.rules {
            CustomMatchRules::Default => r == spec_default_matches(
                byte_seqs(self.signatures@),
                self.offsets@,
                bytes@,
            ),
            _ => self.rules.predicates_give(bytes, r),
        }
    }

    /// Whether this rule accepts `bytes`.
    pub fn matches_custom(&self, bytes: &[u8]) -> (r: bool)
        requires
            self.rules.callable(bytes),
        ensures
            self.may_match(bytes, r),
    {
        match &self.rules {
            CustomMatchRules::Default => default_matches(&self.signatures, &self.offsets, bytes),
            CustomMatchRules::WithFn(f) => f(bytes),
            CustomMatchRules::AnyMatches(fs) => {
                let mut i: usize = 0;
                while i < fs.len()
                    invariant
                        i <= fs@.len(),
                        self.rules == CustomMatchRules::AnyMatches(*fs),
                        all_callable(fs@, bytes),
                        forall|j: int| 0 <= j < i ==> call_ensures(#[trigger] fs@[j], (bytes,), false),
                    decreases fs@.len() - i,
                {
                    let accepted = fs[i](bytes);
                    if accepted {
                        assert(call_ensures(fs@[i as int], (bytes,), true));
                        return true;
                    }
                    i += 1;
                }
                false
            },
            CustomMatchRules::AllMatches(fs) => {
                let mut i: usize = 0;
                while i < fs.len()
                    invariant
                        i <= fs@.len(),
                        self.rules == CustomMatchRules::AllMatches(*fs),
                        all_callable(fs@, bytes),
                        forall|j: int| 0 <= j < i ==> call_ensures(#[trigger] fs@[j], (bytes,), true),
                    decreases fs@.len() - i,
                {
                    let accepted = fs[i](bytes);
                    if !accepted {
                        assert(call_ensures(fs@[i as int], (bytes,), false));
                        return false;
                    }
                    i += 1;
                }
                true
            },
        }
    }
}

/// Rules `0..k` of `rules` rejected `bytes`, and the scan ended at `k` with `r`: the tag of rule
/// `k`, which accepted, or `fallback` when `k` is past the last rule.
pub open spec fn decided_at<K: Clone, F: Fn(&[u8]) -> bool>(
    rules: Seq<MagicCustom<K, F>>,
    bytes: &[u8],
    fallback: K,
    r: K,
    k: int,
) -> bool {
    &&& 0 <= k <= rules.len()
    &&& forall|j: int| 0 <= j < k ==> #[trigger] rules[j].may_match(bytes, false)
    &&& if k < rules.len() {
        rules[k].may_match(bytes, true) && cloned(rules[k].kind, r)
    } else {
        r == fallback
    }
}

/// The tag of the first rule that accepts `bytes`, or `fallback` when none does.
pub fn match_types_custom<K: Clone, F: Fn(&[u8]) -> bool>(
    bytes: &[u8],
    rules: &[MagicCustom<K, F>],
    fallback: K,
) -> (r: K)
    requires
        forall|i: int| 0 <= i < rules@.len() ==> (#[trigger] rules@[i]).rules.callable(bytes),
    ensures
        exists|k: int| #[trigger] decided_at(rules@, bytes, fallback, r, k),
{
    let mut i: usize = 0;
    while i < rules.len()
        invariant
            i <= rules@.len(),
            forall|i: int| 0 <= i < rules@.len() ==> (#[trigger] rules@[i]).rules.callable(bytes),
            forall|j: int| 0 <= j < i ==> #[trigger] rules@[j].may_match(bytes, false),
        decreases rules@.len() - i,
    {
        if rules[i].matches_custom(bytes) {
            let r = rules[i].kind.clone();
            assert(decided_at(rules@, bytes, fallback, r, i as int));
            return r;
        }
        i += 1;
    }
    assert(decided_at(rules@, bytes, fallback, fallback, i as int));
    fallback
}

/// With a predicate that always rejects followed by one that always accepts, the any-of
/// combinator accepts and the all-of combinator rejects.
pub proof fn lemma_any_all_combinators<F: Fn(&[u8]) -> bool>(fs: Vec<F>, bytes: &[u8], r: bool)
    requires
        fs@.len() == 2,
        forall|b: bool| call_ensures(fs@[0], (bytes,), b) ==> !b,
        forall|b: bool| call_ensures(fs@[1], (bytes,), b) ==> b,
    ensures
        CustomMatchRules::AnyMatches(fs).predicates_give(bytes, r) ==> r,
        CustomMatchRules::AllMatches(fs).predicates_give(bytes, r) ==> !r,
{
    if !r && CustomMatchRules::AnyMatches(fs).predicates_give(bytes, r) {
        assert(call_ensures(fs@[1], (bytes,), false));
    }
    if r && CustomMatchRules::AllMatches(fs).predicates_give(bytes, r) {
        assert(call_ensures(fs@[0], (bytes,), true));
    }
}

} // verus!

use vstd::prelude::*;

verus! {

/// A rule built at run time: a predicate `M` and the tag `K` it stands for. A caller that wants
/// rules of different tag types in one list picks a type-erased `K` such as
/// `Box<dyn Any + Send + Sync>`, and a boxed closure for `M`.
pub struct DynMagicCustom<M, K> {
    matcher: M,
    kind: K,
    max_bytes_read: usize,
}

impl<M: Fn(&[u8]) -> bool, K> DynMagicCustom<M, K> {
    pub closed spec fn spec_matcher(&self) -> M {
        self.matcher
    }

    pub closed spec fn spec_kind(&self) -> K {
        self.kind
    }

    pub closed spec fn spec_max_bytes_read(&self) -> usize {
        self.max_bytes_read
    }

    /// A rule from its predicate, its tag and an advisory read budget.
    pub fn new(matcher: M, kind: K, max_bytes_read: usize) -> (r: Self)
        ensures
            r.spec_matcher() == matcher,
            r.spec_kind() == kind,
            r.spec_max_bytes_read() == max_bytes_read,
    {
        DynMagicCustom { matcher, kind, max_bytes_read }
    }

    /// Runs the predicate on `bytes`.
    pub fn matches(&self, bytes: &[u8]) -> (r: bool)
        requires
            call_requires(self.spec_matcher(), (bytes,)),
        ensures
            call_ensures(self.spec_matcher(), (bytes,), r),
    {
        (self.matcher)(bytes)
    }

    pub fn kind(&self) -> (r: &K)
        ensures
            *r == self.spec_kind(),
    {
        &self.kind
    }

    /// The advisory budget; the engine does not enforce it.
    pub fn max_bytes_read(&self) -> (r: usize)
        ensures
            r == self.spec_max_bytes_read(),
    {
        self.max_bytes_read
    }
}

/// Every rule's predicate may be called on `bytes`.
pub open spec fn dyn_callable<M: Fn(&[u8]) -> bool, K>(
    rules: Seq<DynMagicCustom<M, K>>,
    bytes: &[u8],
) -> bool {
    forall|i: int| 0 <= i < rules.len() ==> call_requires((#[trigger] rules[i]).spec_matcher(), (bytes,))
}

/// Rule `i`'s predicate can return `b` on `bytes`.
pub open spec fn dyn_gives<M: Fn(&[u8]) -> bool, K>(
    rules: Seq<DynMagicCustom<M, K>>,
    bytes: &[u8],
    i: int,
    b: bool,
) -> bool {
    call_ensures(rules[i].spec_matcher(), (bytes,), b)
}

/// The first-match scan ended at `k` with `r`: rules `0..k` rejected `bytes`, and either rule
/// `k` accepted and `r` is its tag, or `k` is past the last rule and `r` is `None`.
pub open spec fn dyn_decided_at<M: Fn(&[u8]) -> bool, K>(
    rules: Seq<DynMagicCustom<M, K>>,
    bytes: &[u8],
    r: Option<&K>,
    k: int,
) -> bool {
    &&& 0 <= k <= rules.len()
    &&& forall|j: int| 0 <= j < k ==> #[trigger] dyn_gives(rules, bytes, j, false)
    &&& match r {
        Some(t) => k < rules.len() && dyn_gives(rules, bytes, k, true) && *t == rules[k].spec_kind(),
        None => k == rules.len(),
    }
}

/// Tags of the rules whose outcome in `outcomes` is true, in rule order.
pub open spec fn selected_kinds<M: Fn(&[u8]) -> bool, K>(
    rules: Seq<DynMagicCustom<M, K>>,
    outcomes: Seq<bool>,
) -> Seq<K>
    decreases outcomes.len(),
{
    if outcomes.len() == 0 {
        seq![]
    } else {
        let n = outcomes.len() - 1;
        let before = selected_kinds(rules, outcomes.drop_last());
        if outcomes[n] {
            before.push(rules[n].spec_kind())
        } else {
            before
        }
    }
}

/// Each rule's predicate returned its entry of `outcomes`, and `r` holds the tags of those that
/// returned true, in rule order.
pub open spec fn dyn_all_from<M: Fn(&[u8]) -> bool, K>(
    rules: Seq<DynMagicCustom<M, K>>,
    bytes: &[u8],
    outcomes: Seq<bool>,
    r: Seq<&K>,
) -> bool {
    &&& outcomes.len() == rules.len()
    &&& forall|i: int| 0 <= i < rules.len() ==> #[trigger] dyn_gives(rules, bytes, i, outcomes[i])
    &&& r.map_values(|t: &K| *t) == selected_kinds(rules, outcomes)
}

/// The tag of the first rule whose predicate accepts `bytes`, or `None`.
pub fn match_dyn_types<'a, M: Fn(&[u8]) -> bool, K>(
    bytes: &[u8],
    rules: &'a [DynMagicCustom<M, K>],
) -> (r: Option<&'a K>)
    requires
        dyn_callable(rules@, bytes),
    ensures
        exists|k: int| #[trigger] dyn_decided_at(rules@, bytes, r, k),
{
    let mut i: usize = 0;
    while i < rules.len()
        invariant
            i <= rules@.len(),
            dyn_callable(rules@, bytes),
            forall|j: int| 0 <= j < i ==> #[trigger] dyn_gives(rules@, bytes, j, false),
        decreases rules@.len() - i,
    {
        if rules[i].matches(bytes) {
            let r = Some(rules[i].kind());
            assert(dyn_decided_at(rules@, bytes, r, i as int));
            return r;
        }
        i += 1;
    }
    assert(dyn_decided_at(rules@, bytes, None, i as int));
    None
}

/// The tags of every rule whose predicate accepts `bytes`, in rule order.
pub fn match_dyn_types_all<'a, M: Fn(&[u8]) -> bool, K>(
    bytes: &[u8],
    rules: &'a [DynMagicCustom<M, K>],
) -> (r: Vec<&'a K>)
    requires
        dyn_callable(rules@, bytes),
    ensures
        exists|outcomes: Seq<bool>| #[trigger] dyn_all_from(rules@, bytes, outcomes, r@),
{
    let mut r: Vec<&'a K> = Vec::new();
    let ghost mut outcomes: Seq<bool> = seq![];
    let mut i: usize = 0;
    while i < rules.len()
        invariant
            i <= rules@.len(),
            dyn_callable(rules@, bytes),
            outcomes.len() == i,
            forall|j: int| 0 <= j < i ==> #[trigger] dyn_gives(rules@, bytes, j, outcomes[j]),
            r@.map_values(|t: &K| *t) == selected_kinds(rules@, outcomes),
        decreases rules@.len() - i,
    {
        let accepted = rules[i].matches(bytes);
        let ghost before = r@;
        if accepted {
            r.push(rules[i].kind());
            assert(r@.map_values(|t: &K| *t) =~= before.map_values(|t: &K| *t).push(
                rules@[i as int].spec_kind(),
            ));
        }
        proof {
            let next = outcomes.push(accepted);
            assert(next.drop_last() =~= outcomes);
            outcomes = next;
        }
        i += 1;
    }
    assert(dyn_all_from(rules@, bytes, outcomes, r@));
    r
}

} // verus!

use vstd::prelude::*;

verus! {

/// How the encoder treats one special marker string found in input text.
#[derive(Clone, Copy, PartialEq, Eq, Structural, Debug)]
pub enum SpecialTokenAction {
    /// The marker is forbidden: its presence in the input is an error.
    Forbidden,
    /// The marker's literal bytes are tokenized as ordinary text.
    NormalText,
    /// The marker is recognized as its distinguished vocabulary entry.
    Special,
}

/// The mathematical model of an override list: the map built by inserting the
/// pairs left to right, so a later binding for a key shadows an earlier one.
pub open spec fn overrides_map_of(
    s: Seq<(String, SpecialTokenAction)>,
) -> Map<Seq<char>, SpecialTokenAction>
    decreases s.len(),
{
    if s.len() == 0 {
        Map::empty()
    } else {
        overrides_map_of(s.drop_last()).insert(s.last().0@, s.last().1)
    }
}

/// A key is in the model map exactly when some pair carries it.
pub proof fn lemma_overrides_map_dom(s: Seq<(String, SpecialTokenAction)>, m: Seq<char>)
    ensures
        overrides_map_of(s).dom().contains(m) <==> exists|i: int|
            0 <= i < s.len() && (#[trigger] s[i]).0@ == m,
    decreases s.len(),
{
    if s.len() > 0 {
        lemma_overrides_map_dom(s.drop_last(), m);
        if s.last().0@ == m {
            assert(s[s.len() - 1].0@ == m);
        } else {
            if overrides_map_of(s).dom().contains(m) {
                let i = choose|i: int|
                    0 <= i < s.drop_last().len() && (#[trigger] s.drop_last()[i]).0@ == m;
                assert(s[i].0@ == m);
            }
            if exists|i: int| 0 <= i < s.len() && (#[trigger] s[i]).0@ == m {
                let i = choose|i: int| 0 <= i < s.len() && (#[trigger] s[i]).0@ == m;
                assert(i < s.len() - 1);
                assert(s.drop_last()[i].0@ == m);
            }
        }
    }
}

/// No two pairs carry the same key.
pub open spec fn unique_keys(s: Seq<(String, SpecialTokenAction)>) -> bool {
    forall|i: int, j: int|
        0 <= i < j < s.len() ==> (#[trigger] s[i]).0@ != (#[trigger] s[j]).0@
}

/// With unique keys, the model map sends each pair's key to that pair's action.
pub proof fn lemma_overrides_map_value(s: Seq<(String, SpecialTokenAction)>, i: int)
    requires
        unique_keys(s),
        0 <= i < s.len(),
    ensures
        overrides_map_of(s).dom().contains(s[i].0@),
        overrides_map_of(s)[s[i].0@] == s[i].1,
    decreases s.len(),
{
    lemma_overrides_map_dom(s, s[i].0@);
    if i == s.len() - 1 {
    } else {
        assert(s.drop_last()[i] == s[i]);
        lemma_overrides_map_value(s.drop_last(), i);
        assert(s.last().0@ != s[i].0@);
    }
}

/// A default action plus per-marker overriding actions, built fresh for each
/// request. An absent key means "use the default"; a present key always takes
/// precedence over the default.
pub struct SpecialTokenPolicy {
    pub default_action: SpecialTokenAction,
    pub overrides: Vec<(String, SpecialTokenAction)>,
}

impl SpecialTokenPolicy {
    /// Well-formed: the override keys are pairwise distinct.
    pub open spec fn wf(&self) -> bool {
        unique_keys(self.overrides@)
    }

    /// The override list seen as a map from marker to action.
    pub open spec fn overrides_map(&self) -> Map<Seq<char>, SpecialTokenAction> {
        overrides_map_of(self.overrides@)
    }

    /// The action the policy assigns to one concrete marker.
    pub open spec fn spec_resolve(&self, marker: Seq<char>) -> SpecialTokenAction {
        if self.overrides_map().dom().contains(marker) {
            self.overrides_map()[marker]
        } else {
            self.default_action
        }
    }

    /// A policy is uniform when every marker resolves to the same action; that
    /// is the case exactly when each override repeats the default.
    pub open spec fn spec_uniform(&self) -> Option<SpecialTokenAction> {
        if forall|i: int|
            0 <= i < self.overrides@.len() ==> (#[trigger] self.overrides@[i]).1
                == self.default_action {
            Some(self.default_action)
        } else {
            None
        }
    }

    /// A policy with no overrides: every marker gets the default action.
    pub fn new(default_action: SpecialTokenAction) -> (p: Self)
        ensures
            p.default_action == default_action,
            p.overrides@.len() == 0,
            p.wf(),
            p.spec_uniform() == Some(default_action),
    {
        SpecialTokenPolicy { default_action, overrides: Vec::new() }
    }

    /// Bind one marker to an action, replacing any earlier binding for the
    /// same marker, so the keys stay unique.
    pub fn insert_override(&mut self, key: String, action: SpecialTokenAction)
        requires
            old(self).wf(),
        ensures
            final(self).wf(),
            final(self).default_action == old(self).default_action,
            final(self).overrides_map() == old(self).overrides_map().insert(key@, action),
    {
        let ghost s0 = self.overrides@;
        let n = self.overrides.len();
        let mut i: usize = 0;
        while i < n
            invariant
                s0 == old(self).overrides@,
                unique_keys(s0),
                self.default_action == old(self).default_action,
                n == self.overrides@.len(),
                i <= n,
                self.overrides@ == s0,
                forall|j: int| 0 <= j < i ==> (#[trigger] s0[j]).0@ != key@,
            decreases n - i,
        {
            if str_eq(self.overrides[i].0.as_str(), key.as_str()) {
                proof {
                    assert(s0[i as int].0@ == key@);
                }
                self.overrides.set(i, (key, action));
                proof {
                    let su = self.overrides@;
                    assert(su == s0.update(i as int, su[i as int]));
                    assert(su[i as int].0@ == s0[i as int].0@);
                    assert(unique_keys(su)) by {
                        assert(forall|j: int|
                            0 <= j < su.len() ==> (#[trigger] su[j]).0@ == s0[j].0@);
                    }
                    lemma_overrides_map_update(s0, i as int, su[i as int]);
                }
                return;
            }
            i += 1;
        }
        proof {
            assert(forall|j: int| 0 <= j < s0.len() ==> (#[trigger] s0[j]).0@ != key@);
        }
        self.overrides.push((key, action));
        proof {
            let sp = self.overrides@;
            assert(sp.drop_last() =~= s0);
            assert(sp.last().0@ == key@);
            assert(unique_keys(sp)) by {
                assert(forall|j: int| 0 <= j < s0.len() ==> (#[trigger] sp[j]) == s0[j]);
            }
            lemma_overrides_map_dom(s0, key@);
        }
    }

    /// The resolution step: one lookup in the override map, with the default
    /// as fallback.
    pub fn resolve(&self, marker: &str) -> (r: SpecialTokenAction)
        requires
            self.wf(),
        ensures
            r == self.spec_resolve(marker@),
    {
        let n = self.overrides.len();
        let mut i: usize = 0;
        while i < n
            invariant
                n == self.overrides@.len(),
                i <= n,
                self.wf(),
                forall|j: int| 0 <= j < i ==> (#[trigger] self.overrides@[j]).0@ != marker@,
            decreases n - i,
        {
            if str_eq(self.overrides[i].0.as_str(), marker) {
                proof {
                    lemma_overrides_map_value(self.overrides@, i as int);
                }
                return self.overrides[i].1;
            }
            i += 1;
        }
        proof {
            lemma_overrides_map_dom(self.overrides@, marker@);
        }
        self.default_action
    }

    /// If the policy is expressible as one action applied everywhere, return
    /// that action.
    pub fn uniform_action(&self) -> (r: Option<SpecialTokenAction>)
        ensures
            r == self.spec_uniform(),
    {
        let n = self.overrides.len();
        let mut i: usize = 0;
        while i < n
            invariant
                n == self.overrides@.len(),
                i <= n,
                forall|j: int| 0 <= j < i ==> (#[trigger] self.overrides@[j]).1
                    == self.default_action,
            decreases n - i,
        {
            let (_, a) = &self.overrides[i];
            if *a != self.default_action {
                return None;
            }
            i += 1;
        }
        Some(self.default_action)
    }
}

/// Replacing the pair at a key's index rebinds just that key in the model map.
proof fn lemma_overrides_map_update(
    s: Seq<(String, SpecialTokenAction)>,
    k: int,
    p: (String, SpecialTokenAction),
)
    requires
        unique_keys(s),
        0 <= k < s.len(),
        s[k].0@ == p.0@,
    ensures
        overrides_map_of(s.update(k, p)) == overrides_map_of(s).insert(p.0@, p.1),
    decreases s.len(),
{
    let su = s.update(k, p);
    if k == s.len() - 1 {
        assert(su.drop_last() =~= s.drop_last());
        assert(overrides_map_of(s.drop_last()).insert(s.last().0@, s.last().1).insert(p.0@, p.1)
            =~= overrides_map_of(s.drop_last()).insert(p.0@, p.1));
    } else {
        assert(su.drop_last() =~= s.drop_last().update(k, p));
        assert(s.drop_last()[k] == s[k]);
        lemma_overrides_map_update(s.drop_last(), k, p);
        assert(su.last() == s.last());
        assert(s.last().0@ != p.0@);
        assert(overrides_map_of(s.drop_last()).insert(p.0@, p.1).insert(s.last().0@, s.last().1)
            =~= overrides_map_of(s.drop_last()).insert(s.last().0@, s.last().1).insert(
            p.0@,
            p.1,
        ));
    }
}

/// Character-by-character string comparison whose answer is the equality of
/// the two views.
pub fn str_eq(a: &str, b: &str) -> (r: bool)
    ensures
        r == (a@ == b@),
{
    let na = a.unicode_len();
    let nb = b.unicode_len();
    if na != nb {
        return false;
    }
    let mut i: usize = 0;
    while i < na
        invariant
            na == a@.len(),
            nb == b@.len(),
            na == nb,
            i <= na,
            forall|j: int| 0 <= j < i ==> a@[j] == b@[j],
        decreases na - i,
    {
        if a.get_char(i) != b.get_char(i) {
            return false;
        }
        i += 1;
    }
    proof {
        assert(a@ =~= b@);
    }
    true
}

} // verus!

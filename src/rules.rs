//! Production rules: a finite map from a symbol to its replacement.
use vstd::prelude::*;

use crate::symbol::Symbol;

verus! {

/// A generation, read left to right.
pub type State = Vec<Symbol>;

/// What a symbol expands to under `rules`: its rule's replacement, or the
/// symbol itself when it has no rule.
pub open spec fn expand(rules: Map<Symbol, Seq<Symbol>>, s: Symbol) -> Seq<Symbol> {
    if rules.contains_key(s) {
        rules[s]
    } else {
        seq![s]
    }
}

/// A ruleset: at most one replacement per symbol.
pub struct Rules {
    entries: Vec<(Symbol, State)>,
    model: Ghost<Map<Symbol, Seq<Symbol>>>,
}

impl View for Rules {
    type V = Map<Symbol, Seq<Symbol>>;

    closed spec fn view(&self) -> Map<Symbol, Seq<Symbol>> {
        self.model@
    }
}

impl Rules {
    /// The entries hold exactly the pairs of the map.
    pub closed spec fn wf(&self) -> bool {
        &&& forall|i: int|
            0 <= i < self.entries.len() ==> #[trigger] self.model@.contains_key(
                self.entries@[i].0,
            ) && self.model@[self.entries@[i].0] == self.entries@[i].1@
        &&& forall|k: Symbol|
            #[trigger] self.model@.contains_key(k) ==> exists|i: int|
                0 <= i < self.entries.len() && self.entries@[i].0 == k
        &&& forall|i: int, j: int|
            0 <= i < j < self.entries.len() ==> self.entries@[i].0 != self.entries@[j].0
    }

    /// A ruleset without rules.
    pub fn new() -> (r: Rules)
        ensures
            r.wf(),
            r@ == Map::<Symbol, Seq<Symbol>>::empty(),
    {
        Rules { entries: Vec::new(), model: Ghost(Map::empty()) }
    }

    /// The position of the entry for `s`, if there is one.
    fn position(&self, s: Symbol) -> (r: Option<usize>)
        requires
            self.wf(),
        ensures
            match r {
                Some(i) => i < self.entries.len() && self.entries@[i as int].0 == s,
                None => !self@.contains_key(s),
            },
    {
        let mut i: usize = 0;
        while i < self.entries.len()
            invariant
                self.wf(),
                i <= self.entries.len(),
                forall|j: int| 0 <= j < i ==> self.entries@[j].0 != s,
            decreases self.entries.len() - i,
        {
            if self.entries[i].0 == s {
                return Some(i);
            }
            i = i + 1;
        }
        None
    }

    /// Whether `s` has a rule.
    pub fn contains_key(&self, s: &Symbol) -> (r: bool)
        requires
            self.wf(),
        ensures
            r == self@.contains_key(*s),
    {
        self.position(*s).is_some()
    }

    /// The replacement of `s`, if it has a rule.
    pub fn get(&self, s: &Symbol) -> (r: Option<&State>)
        requires
            self.wf(),
        ensures
            match r {
                Some(v) => self@.contains_key(*s) && v@ == self@[*s],
                None => !self@.contains_key(*s),
            },
    {
        match self.position(*s) {
            Some(i) => {
                proof {
                    assert(self.model@.contains_key(self.entries@[i as int].0));
                }
                Some(&self.entries[i].1)
            },
            None => None,
        }
    }

    /// Sets the replacement of `s`, overriding any earlier rule for it.
    pub fn insert(&mut self, s: Symbol, replacement: State)
        requires
            old(self).wf(),
        ensures
            final(self).wf(),
            final(self)@ == old(self)@.insert(s, replacement@),
    {
        let ghost new_model = self.model@.insert(s, replacement@);
        let ghost old_entries = self.entries@;
        match self.position(s) {
            Some(i) => {
                self.entries.set(i, (s, replacement));
                self.model = Ghost(new_model);
                assert forall|j: int| 0 <= j < self.entries.len() implies #[trigger] self.model@.contains_key(
                    self.entries@[j].0,
                ) && self.model@[self.entries@[j].0] == self.entries@[j].1@ by {
                    if j != i {
                        assert(old(self).model@.contains_key(old_entries[j].0));
                    }
                }
                assert forall|k: Symbol| #[trigger] self.model@.contains_key(k) implies exists|
                    j: int,
                | 0 <= j < self.entries.len() && self.entries@[j].0 == k by {
                    if k != s {
                        let j = choose|j: int|
                            0 <= j < old(self).entries.len() && old(self).entries@[j].0 == k;
                        assert(self.entries@[j].0 == k);
                    } else {
                        assert(self.entries@[i as int].0 == k);
                    }
                }
            },
            None => {
                self.entries.push((s, replacement));
                self.model = Ghost(new_model);
                assert forall|j: int| 0 <= j < self.entries.len() implies #[trigger] self.model@.contains_key(
                    self.entries@[j].0,
                ) && self.model@[self.entries@[j].0] == self.entries@[j].1@ by {
                    if j < old_entries.len() {
                        assert(old(self).model@.contains_key(old_entries[j].0));
                    }
                }
                assert forall|k: Symbol| #[trigger] self.model@.contains_key(k) implies exists|
                    j: int,
                | 0 <= j < self.entries.len() && self.entries@[j].0 == k by {
                    if k != s {
                        let j = choose|j: int|
                            0 <= j < old(self).entries.len() && old(self).entries@[j].0 == k;
                        assert(self.entries@[j].0 == k);
                    } else {
                        assert(self.entries@[self.entries.len() - 1].0 == k);
                    }
                }
            },
        }
    }

    /// The same ruleset, held anew.
    pub fn duplicate(&self) -> (r: Rules)
        requires
            self.wf(),
        ensures
            r.wf(),
            r@ == self@,
    {
        let mut entries: Vec<(Symbol, State)> = Vec::new();
        let mut i: usize = 0;
        while i < self.entries.len()
            invariant
                self.wf(),
                i <= self.entries.len(),
                entries.len() == i,
                forall|j: int|
                    0 <= j < i ==> #[trigger] entries@[j].0 == self.entries@[j].0
                        && entries@[j].1@ == self.entries@[j].1@,
            decreases self.entries.len() - i,
        {
            let replacement = copy_state(&self.entries[i].1);
            entries.push((self.entries[i].0, replacement));
            i = i + 1;
        }
        let r = Rules { entries, model: Ghost(self.model@) };
        assert forall|k: Symbol| #[trigger] r.model@.contains_key(k) implies exists|j: int|
            0 <= j < r.entries.len() && r.entries@[j].0 == k by {
            let j = choose|j: int| 0 <= j < self.entries.len() && self.entries@[j].0 == k;
            assert(r.entries@[j].0 == k);
        }
        r
    }
}

/// A copy of a generation.
pub fn copy_state(s: &State) -> (r: State)
    ensures
        r@ == s@,
{
    let mut r: State = Vec::new();
    let mut i: usize = 0;
    while i < s.len()
        invariant
            i <= s.len(),
            r@ == s@.take(i as int),
        decreases s.len() - i,
    {
        r.push(s[i]);
        i = i + 1;
        assert(r@ =~= s@.take(i as int));
    }
    assert(r@ =~= s@);
    r
}

} // verus!

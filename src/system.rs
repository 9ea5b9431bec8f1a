//! The rewriting engine: a system of rules and a start generation, and the iterator
//! over its generations.
use vstd::prelude::*;

use crate::rules::{copy_state, expand, Rules, State};
use crate::symbol::{glyph_of, Symbol};
use crate::text::push_char;

verus! {

/// The generation that follows `g`: every symbol replaced by its expansion,
/// in order.
pub open spec fn rewrite(rules: Map<Symbol, Seq<Symbol>>, g: Seq<Symbol>) -> Seq<Symbol>
    decreases g.len(),
{
    if g.len() == 0 {
        Seq::empty()
    } else {
        rewrite(rules, g.drop_last()) + expand(rules, g.last())
    }
}

/// Generation `n` of the system with these rules and this start.
pub open spec fn generation(rules: Map<Symbol, Seq<Symbol>>, start: Seq<Symbol>, n: nat) -> Seq<
    Symbol,
>
    decreases n,
{
    if n == 0 {
        start
    } else {
        rewrite(rules, generation(rules, start, (n - 1) as nat))
    }
}

/// The text of a generation: the glyph of each symbol, in order.
pub open spec fn text_of(g: Seq<Symbol>) -> Seq<char> {
    g.map_values(|s: Symbol| glyph_of(s))
}

/// The rules once `constants` are added as identity rules; a rule that is
/// already there wins.
pub open spec fn with_constants(rules: Map<Symbol, Seq<Symbol>>, constants: Seq<Symbol>) -> Map<
    Symbol,
    Seq<Symbol>,
> {
    Map::new(
        |k: Symbol| rules.contains_key(k) || constants.contains(k),
        |k: Symbol|
            if rules.contains_key(k) {
                rules[k]
            } else {
                seq![k]
            },
    )
}

proof fn lemma_with_one_more_constant(
    rules: Map<Symbol, Seq<Symbol>>,
    constants: Seq<Symbol>,
    c: Symbol,
)
    ensures
        ({
            let m = with_constants(rules, constants);
            with_constants(rules, constants.push(c)) == if m.contains_key(c) {
                m
            } else {
                m.insert(c, seq![c])
            }
        }),
{
    let m = with_constants(rules, constants);
    let n = with_constants(rules, constants.push(c));
    assert forall|k: Symbol| constants.push(c).contains(k) <==> (constants.contains(k) || k == c) by {
        if k == c {
            assert(constants.push(c)[constants.len() as int] == c);
        }
        if constants.contains(k) {
            let j = choose|j: int| 0 <= j < constants.len() && #[trigger] constants[j] == k;
            assert(constants.push(c)[j] == k);
        }
    }
    if m.contains_key(c) {
        assert(n =~= m);
    } else {
        assert(n =~= m.insert(c, seq![c]));
    }
}

/// The text of a generation.
pub fn dump(state: &State) -> (r: String)
    ensures
        r@ == text_of(state@),
{
    let mut r = String::new();
    let mut i: usize = 0;
    while i < state.len()
        invariant
            i <= state.len(),
            r@ == text_of(state@.take(i as int)),
        decreases state.len() - i,
    {
        let c = state[i].to_char();
        push_char(&mut r, c);
        i = i + 1;
        assert(r@ =~= text_of(state@.take(i as int)));
    }
    assert(state@.take(state.len() as int) =~= state@);
    r
}

/// An L-system: rules and the start that generation 0 is.
pub struct System {
    rules: Rules,
    start: State,
}

impl System {
    /// The rules.
    pub closed spec fn rules(&self) -> Map<Symbol, Seq<Symbol>> {
        self.rules@
    }

    /// The start.
    pub closed spec fn start(&self) -> Seq<Symbol> {
        self.start@
    }

    pub closed spec fn wf(&self) -> bool {
        self.rules.wf()
    }

    /// A system of `rules` and `start`, where each of `constants` without a
    /// rule of its own gets the rule that maps it to itself.
    pub fn new(rules: Rules, constants: Vec<Symbol>, start: State) -> (r: System)
        requires
            rules.wf(),
        ensures
            r.wf(),
            r.rules() == with_constants(rules@, constants@),
            r.start() == start@,
    {
        let mut rules = rules;
        let ghost given = rules@;
        let mut i: usize = 0;
        while i < constants.len()
            invariant
                rules.wf(),
                i <= constants.len(),
                rules@ == with_constants(given, constants@.take(i as int)),
            decreases constants.len() - i,
        {
            let c = constants[i];
            let ghost prev = rules@;
            if !rules.contains_key(&c) {
                let single = vec![c];
                assert(single@ =~= seq![c]);
                rules.insert(c, single);
            }
            i = i + 1;
            proof {
                assert(constants@.take(i as int) =~= constants@.take(i - 1).push(c));
                lemma_with_one_more_constant(given, constants@.take(i - 1), c);
                assert(prev == with_constants(given, constants@.take(i - 1)));
            }
        }
        assert(constants@.take(constants.len() as int) =~= constants@);
        System { rules, start }
    }

    /// An iterator over the generations, starting at the start.
    pub fn into_iter(self) -> (r: SystemIterator)
        requires
            self.wf(),
        ensures
            r.wf(),
            r.rules() == self.rules(),
            r.start() == self.start(),
            r.index() == 0,
            r.current() == self.start(),
    {
        SystemIterator::new(self.start, self.rules)
    }

    /// An iterator over the generations that leaves the system in place.
    pub fn iter(&self) -> (r: SystemIterator)
        requires
            self.wf(),
        ensures
            r.wf(),
            r.rules() == self.rules(),
            r.start() == self.start(),
            r.index() == 0,
            r.current() == self.start(),
    {
        SystemIterator::new(copy_state(&self.start), self.rules.duplicate())
    }
}

/// The generations of a system, one after the other.
pub struct SystemIterator {
    state: State,
    rules: Rules,
    start: Ghost<Seq<Symbol>>,
    index: Ghost<nat>,
}

impl SystemIterator {
    /// The rules.
    pub closed spec fn rules(&self) -> Map<Symbol, Seq<Symbol>> {
        self.rules@
    }

    /// Generation 0.
    pub closed spec fn start(&self) -> Seq<Symbol> {
        self.start@
    }

    /// The number of the current generation.
    pub closed spec fn index(&self) -> nat {
        self.index@
    }

    /// The current generation.
    pub closed spec fn current(&self) -> Seq<Symbol> {
        self.state@
    }

    /// The current generation is generation `index` of the rules and start.
    pub closed spec fn wf(&self) -> bool {
        &&& self.rules.wf()
        &&& self.state@ == generation(self.rules@, self.start@, self.index@)
    }

    fn new(state: State, rules: Rules) -> (r: SystemIterator)
        requires
            rules.wf(),
        ensures
            r.wf(),
            r.rules() == rules@,
            r.start() == state@,
            r.index() == 0,
            r.current() == state@,
    {
        SystemIterator { state, rules, start: Ghost(state@), index: Ghost(0) }
    }

    /// The current generation.
    pub fn state(&self) -> (r: &State)
        ensures
            r@ == self.current(),
    {
        &self.state
    }

    /// Hands out the current generation and moves on to the next one.
    /// There is always a next one, so the result is never `None`.
    pub fn next(&mut self) -> (r: Option<State>)
        requires
            old(self).wf(),
        ensures
            final(self).wf(),
            r matches Some(g) && g@ == old(self).current(),
            final(self).current() == rewrite(old(self).rules(), old(self).current()),
            final(self).index() == old(self).index() + 1,
            final(self).rules() == old(self).rules(),
            final(self).start() == old(self).start(),
    {
        let mut buffer: State = Vec::new();
        let state = &self.state;
        let rules = &self.rules;
        let mut i: usize = 0;
        while i < state.len()
            invariant
                rules.wf(),
                i <= state.len(),
                buffer@ == rewrite(rules@, state@.take(i as int)),
            decreases state.len() - i,
        {
            let s = state[i];
            match rules.get(&s) {
                Some(replacement) => {
                    let mut j: usize = 0;
                    let ghost before = buffer@;
                    while j < replacement.len()
                        invariant
                            j <= replacement.len(),
                            buffer@ == before + replacement@.take(j as int),
                        decreases replacement.len() - j,
                    {
                        buffer.push(replacement[j]);
                        j = j + 1;
                        assert(buffer@ =~= before + replacement@.take(j as int));
                    }
                    assert(replacement@.take(j as int) =~= replacement@);
                },
                None => {
                    buffer.push(s);
                },
            }
            i = i + 1;
            assert(state@.take(i as int).drop_last() =~= state@.take(i - 1));
        }
        assert(state@.take(state.len() as int) =~= state@);
        std::mem::swap(&mut self.state, &mut buffer);
        self.index = Ghost(self.index@ + 1);
        Some(buffer)
    }
}

/// The number of symbols that `g` expands to: the sum, over its symbols, of
/// the length of each one's expansion.
pub open spec fn expanded_length(rules: Map<Symbol, Seq<Symbol>>, g: Seq<Symbol>) -> int {
    g.fold_left(0int, |acc: int, s: Symbol| acc + expand(rules, s).len())
}

/// Generation 0 is the start generation, so both are written alike.
pub proof fn lemma_generation_zero(rules: Map<Symbol, Seq<Symbol>>, start: Seq<Symbol>)
    ensures
        generation(rules, start, 0) == start,
        text_of(generation(rules, start, 0)) == text_of(start),
{
}

/// The next generation is as long as the sum of the lengths of the
/// expansions of the symbols of this one (a symbol without a rule counts one).
pub proof fn lemma_rewrite_length(rules: Map<Symbol, Seq<Symbol>>, g: Seq<Symbol>)
    ensures
        rewrite(rules, g).len() == expanded_length(rules, g),
    decreases g.len(),
{
    if g.len() > 0 {
        lemma_rewrite_length(rules, g.drop_last());
    }
}

/// A constant that has no rule of its own expands to itself, so a
/// generation made of it stays the same in every later generation.
pub proof fn lemma_constant_is_fixed(
    rules: Map<Symbol, Seq<Symbol>>,
    constants: Seq<Symbol>,
    c: Symbol,
    n: nat,
)
    requires
        constants.contains(c),
        !rules.contains_key(c),
    ensures
        expand(with_constants(rules, constants), c) == seq![c],
        generation(with_constants(rules, constants), seq![c], n) == seq![c],
    decreases n,
{
    let m = with_constants(rules, constants);
    assert(rewrite(m, seq![c]) =~= seq![c]) by {
        assert(m.contains_key(c));
        assert(expand(m, c) == seq![c]);
        assert(seq![c].drop_last() =~= Seq::<Symbol>::empty());
        assert(seq![c].last() == c);
        assert(rewrite(m, Seq::<Symbol>::empty()) == Seq::<Symbol>::empty());
        assert(Seq::<Symbol>::empty() + seq![c] =~= seq![c]);
    }
    if n > 0 {
        lemma_constant_is_fixed(rules, constants, c, (n - 1) as nat);
    }
}

/// The current generation of an iterator is generation `index` of its rules
/// and start generation; in particular two iterators over the same system
/// that have made the same number of steps hold the same generation.
pub proof fn lemma_iterators_agree(a: &SystemIterator, b: &SystemIterator)
    requires
        a.wf(),
        b.wf(),
        a.rules() == b.rules(),
        a.start() == b.start(),
        a.index() == b.index(),
    ensures
        a.current() == generation(a.rules(), a.start(), a.index()),
        a.current() == b.current(),
{
}

} // verus!

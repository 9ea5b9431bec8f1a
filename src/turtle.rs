//! The turtle interpreter: what each symbol asks of the turtle, and the
//! stack of saved poses behind push and pop.
//!
//! Geometry (where a step forward lands, how far a turn goes) is the
//! renderer's part; here a pose is any value, and the interpreter decides
//! which effect each symbol has and keeps the saved poses.
use vstd::prelude::*;

use crate::symbol::Symbol;

verus! {

/// The effect that one symbol asks of the renderer.
#[derive(Debug, Clone, Copy, PartialEq, Eq, Structural)]
pub enum Effect {
    /// Nothing to do: a variable, or a pop with no saved pose.
    Nothing,
    /// Step forward by the line length and draw the segment.
    Draw,
    /// Step forward by the line length without drawing.
    Move,
    /// Turn by minus the turning angle.
    TurnLeft,
    /// Turn by the turning angle.
    TurnRight,
    /// Turn half a circle.
    TurnAround,
    /// The current pose was saved.
    Saved,
    /// The pose saved last was restored.
    Restored,
    /// Add the width increment to the line thickness.
    Thicken,
    /// Take the width increment from the line thickness.
    Thin,
    /// Draw a filled circle at the current position, of the line length as
    /// radius.
    Dot,
    /// Multiply the line length by the scale factor.
    ScaleLine,
    /// Add the angle increment to the turning angle.
    WidenAngle,
    /// Take the angle increment from the turning angle.
    NarrowAngle,
    /// An operator that has no defined effect (polygons, swapping the turns);
    /// the renderer does nothing for it.
    Unsupported,
}

/// The effect of `s` when `depth` poses are saved.
pub open spec fn effect_of(s: Symbol, depth: nat) -> Effect {
    match s {
        Symbol::Var(_) => Effect::Nothing,
        Symbol::Draw => Effect::Draw,
        Symbol::Move => Effect::Move,
        Symbol::Left => Effect::TurnLeft,
        Symbol::Right => Effect::TurnRight,
        Symbol::Reverse => Effect::TurnAround,
        Symbol::Push => Effect::Saved,
        Symbol::Pop => if depth > 0 {
            Effect::Restored
        } else {
            Effect::Nothing
        },
        Symbol::IncLine => Effect::Thicken,
        Symbol::DecLine => Effect::Thin,
        Symbol::Dot => Effect::Dot,
        Symbol::OpenPolygon => Effect::Unsupported,
        Symbol::ClosePolygon => Effect::Unsupported,
        Symbol::MulLine => Effect::ScaleLine,
        Symbol::DivLine => Effect::ScaleLine,
        Symbol::SwapOperations => Effect::Unsupported,
        Symbol::IncAngle => Effect::WidenAngle,
        Symbol::DecAngle => Effect::NarrowAngle,
    }
}

/// A turtle over a pass: its pose, what else it carries that push and pop
/// leave alone (thickness, drawing settings), and the saved poses.
pub type Pen<P, E> = (P, E, Seq<P>);

/// The pen after one symbol. `motion` is what every symbol other than push
/// and pop does to the pose and the rest.
pub open spec fn after<P, E>(pen: Pen<P, E>, s: Symbol, motion: spec_fn(P, E, Symbol) -> (P, E)) -> Pen<
    P,
    E,
> {
    match s {
        Symbol::Push => (pen.0, pen.1, pen.2.push(pen.0)),
        Symbol::Pop => if pen.2.len() > 0 {
            (pen.2.last(), pen.1, pen.2.drop_last())
        } else {
            pen
        },
        _ => {
            let (p, e) = motion(pen.0, pen.1, s);
            (p, e, pen.2)
        },
    }
}

/// The pen after `syms`, read left to right.
pub open spec fn run<P, E>(
    pen: Pen<P, E>,
    syms: Seq<Symbol>,
    motion: spec_fn(P, E, Symbol) -> (P, E),
) -> Pen<P, E>
    decreases syms.len(),
{
    if syms.len() == 0 {
        pen
    } else {
        after(run(pen, syms.drop_last(), motion), syms.last(), motion)
    }
}

/// Pushes minus pops in `syms`.
pub open spec fn depth(syms: Seq<Symbol>) -> int
    decreases syms.len(),
{
    if syms.len() == 0 {
        0
    } else {
        depth(syms.drop_last()) + match syms.last() {
            Symbol::Push => 1int,
            Symbol::Pop => -1int,
            _ => 0int,
        }
    }
}

/// No prefix of `syms` pops more than it pushed.
pub open spec fn never_below(syms: Seq<Symbol>) -> bool {
    forall|k: int| 0 <= k <= syms.len() ==> depth(#[trigger] syms.take(k)) >= 0
}

/// Every pop in `syms` has its push, and every push its pop.
pub open spec fn balanced(syms: Seq<Symbol>) -> bool {
    never_below(syms) && depth(syms) == 0
}

proof fn lemma_run_concat<P, E>(
    pen: Pen<P, E>,
    a: Seq<Symbol>,
    b: Seq<Symbol>,
    motion: spec_fn(P, E, Symbol) -> (P, E),
)
    ensures
        run(pen, a + b, motion) == run(run(pen, a, motion), b, motion),
    decreases b.len(),
{
    if b.len() == 0 {
        assert(a + b =~= a);
    } else {
        assert((a + b).drop_last() =~= a + b.drop_last());
        lemma_run_concat(pen, a, b.drop_last(), motion);
    }
}

/// A run that never pops below its start keeps the saved poses it started
/// with and adds `depth` more.
proof fn lemma_run_keeps_saved<P, E>(
    pen: Pen<P, E>,
    syms: Seq<Symbol>,
    motion: spec_fn(P, E, Symbol) -> (P, E),
)
    requires
        never_below(syms),
    ensures
        run(pen, syms, motion).2.len() == pen.2.len() + depth(syms),
        run(pen, syms, motion).2.take(pen.2.len() as int) == pen.2,
    decreases syms.len(),
{
    if syms.len() > 0 {
        let init = syms.drop_last();
        assert forall|k: int| 0 <= k <= init.len() implies depth(#[trigger] init.take(k)) >= 0 by {
            assert(init.take(k) =~= syms.take(k));
        }
        lemma_run_keeps_saved(pen, init, motion);
        assert(syms.take(syms.len() as int) =~= syms);
        let mid = run(pen, init, motion);
        let fin = run(pen, syms, motion);
        if syms.last() == Symbol::Push {
            assert(fin.2.take(pen.2.len() as int) =~= mid.2.take(pen.2.len() as int));
        } else if syms.last() == Symbol::Pop {
            assert(fin.2.take(pen.2.len() as int) =~= mid.2.take(pen.2.len() as int));
        }
    }
}

/// After a push, a balanced run and a pop, the turtle stands where it stood
/// before the push, facing the same way, with the same poses saved.
pub proof fn lemma_push_pop_restores<P, E>(
    pen: Pen<P, E>,
    inner: Seq<Symbol>,
    motion: spec_fn(P, E, Symbol) -> (P, E),
)
    requires
        balanced(inner),
    ensures
        run(pen, seq![Symbol::Push] + inner + seq![Symbol::Pop], motion).0 == pen.0,
        run(pen, seq![Symbol::Push] + inner + seq![Symbol::Pop], motion).2 == pen.2,
{
    let push = seq![Symbol::Push];
    let pop = seq![Symbol::Pop];
    lemma_run_concat(pen, push + inner, pop, motion);
    lemma_run_concat(pen, push, inner, motion);
    assert(push.drop_last() =~= Seq::<Symbol>::empty());
    assert(push.last() == Symbol::Push);
    assert(run(pen, Seq::<Symbol>::empty(), motion) == pen);
    let pushed = run(pen, push, motion);
    assert(pushed == (pen.0, pen.1, pen.2.push(pen.0)));
    lemma_run_keeps_saved(pushed, inner, motion);
    let mid = run(pushed, inner, motion);
    assert(mid.2 =~= pen.2.push(pen.0));
    assert(pop.drop_last() =~= Seq::<Symbol>::empty());
    assert(pop.last() == Symbol::Pop);
    assert(run(mid, Seq::<Symbol>::empty(), motion) == mid);
    assert(mid.2.len() > 0 && mid.2.last() == pen.0 && mid.2.drop_last() =~= pen.2);
}

/// A turtle's pose and the poses saved by push.
pub struct Turtle<P> {
    pose: P,
    saved: Vec<P>,
}

impl<P: Copy> Turtle<P> {
    /// The current pose.
    pub closed spec fn pose_of(&self) -> P {
        self.pose
    }

    /// The saved poses, the one saved last at the end.
    pub closed spec fn saved_of(&self) -> Seq<P> {
        self.saved@
    }

    /// A turtle at `pose`, with nothing saved.
    pub fn new(pose: P) -> (r: Turtle<P>)
        ensures
            r.pose_of() == pose,
            r.saved_of() == Seq::<P>::empty(),
    {
        Turtle { pose, saved: Vec::new() }
    }

    /// The current pose.
    pub fn pose(&self) -> (r: P)
        ensures
            r == self.pose_of(),
    {
        self.pose
    }

    /// Moves the turtle to `pose`; the saved poses stay.
    pub fn set_pose(&mut self, pose: P)
        ensures
            final(self).pose_of() == pose,
            final(self).saved_of() == old(self).saved_of(),
    {
        self.pose = pose;
    }

    /// Reads one symbol: saves or restores the pose for push and pop, and
    /// says what the renderer is to do. For every other symbol the pose is
    /// left to the renderer.
    pub fn step(&mut self, s: Symbol) -> (r: Effect)
        ensures
            r == effect_of(s, old(self).saved_of().len()),
            s != Symbol::Push && s != Symbol::Pop ==> final(self).pose_of() == old(self).pose_of()
                && final(self).saved_of() == old(self).saved_of(),
            s == Symbol::Push ==> final(self).pose_of() == old(self).pose_of()
                && final(self).saved_of() == old(self).saved_of().push(old(self).pose_of()),
            s == Symbol::Pop && old(self).saved_of().len() > 0 ==> final(self).pose_of() == old(
                self,
            ).saved_of().last() && final(self).saved_of() == old(self).saved_of().drop_last(),
            s == Symbol::Pop && old(self).saved_of().len() == 0 ==> final(self).pose_of() == old(
                self,
            ).pose_of() && final(self).saved_of() == old(self).saved_of(),
    {
        match s {
            Symbol::Var(_) => Effect::Nothing,
            Symbol::Draw => Effect::Draw,
            Symbol::Move => Effect::Move,
            Symbol::Left => Effect::TurnLeft,
            Symbol::Right => Effect::TurnRight,
            Symbol::Reverse => Effect::TurnAround,
            Symbol::Push => {
                self.saved.push(self.pose);
                Effect::Saved
            },
            Symbol::Pop => {
                match self.saved.pop() {
                    Some(p) => {
                        self.pose = p;
                        Effect::Restored
                    },
                    None => Effect::Nothing,
                }
            },
            Symbol::IncLine => Effect::Thicken,
            Symbol::DecLine => Effect::Thin,
            Symbol::Dot => Effect::Dot,
            Symbol::OpenPolygon => Effect::Unsupported,
            Symbol::ClosePolygon => Effect::Unsupported,
            Symbol::MulLine => Effect::ScaleLine,
            Symbol::DivLine => Effect::ScaleLine,
            Symbol::SwapOperations => Effect::Unsupported,
            Symbol::IncAngle => Effect::WidenAngle,
            Symbol::DecAngle => Effect::NarrowAngle,
        }
    }
}

} // verus!

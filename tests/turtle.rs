use l_system::text::state_of;
use l_system::turtle::{Effect, Turtle};
use l_system::Symbol;

#[test]
fn push_pop_restores_pose() {
    let mut turtle = Turtle::new((0i64, 0i64, 90i64));
    assert_eq!(turtle.step(Symbol::Push), Effect::Saved);
    turtle.set_pose((5, 7, 180));
    assert_eq!(turtle.step(Symbol::Push), Effect::Saved);
    turtle.set_pose((1, 1, 0));
    assert_eq!(turtle.step(Symbol::Pop), Effect::Restored);
    assert_eq!(turtle.pose(), (5, 7, 180));
    assert_eq!(turtle.step(Symbol::Pop), Effect::Restored);
    assert_eq!(turtle.pose(), (0, 0, 90));
}

#[test]
fn pop_without_push_does_nothing() {
    let mut turtle = Turtle::new((3i64, 4i64));
    assert_eq!(turtle.step(Symbol::Pop), Effect::Nothing);
    assert_eq!(turtle.pose(), (3, 4));
}

#[test]
fn effects_of_symbols() {
    let mut turtle = Turtle::new(0u8);
    let effects: Vec<Effect> = state_of("AFf+-|#!@><()&{}")
        .into_iter()
        .map(|s| turtle.step(s))
        .collect();
    assert_eq!(
        effects,
        vec![
            Effect::Nothing,
            Effect::Draw,
            Effect::Move,
            Effect::TurnLeft,
            Effect::TurnRight,
            Effect::TurnAround,
            Effect::Thicken,
            Effect::Thin,
            Effect::Dot,
            Effect::ScaleLine,
            Effect::ScaleLine,
            Effect::WidenAngle,
            Effect::NarrowAngle,
            Effect::Unsupported,
            Effect::Unsupported,
            Effect::Unsupported,
        ]
    );
    assert_eq!(turtle.pose(), 0);
}

#[test]
fn turtle_walk_with_integer_geometry() {
    // Headings in quarter turns; a step moves one unit along the heading.
    let mut turtle = Turtle::new(((0i64, 0i64), 1i64));
    for s in state_of("+F-F") {
        let ((x, y), h) = turtle.pose();
        match turtle.step(s) {
            Effect::TurnLeft => turtle.set_pose(((x, y), (h + 3) % 4)),
            Effect::TurnRight => turtle.set_pose(((x, y), (h + 1) % 4)),
            Effect::Draw | Effect::Move => {
                let (dx, dy) = [(1, 0), (0, -1), (-1, 0), (0, 1)][h as usize];
                turtle.set_pose(((x + dx, y + dy), h));
            }
            _ => {}
        }
    }
    assert_eq!(turtle.pose(), ((1, -1), 1));
}

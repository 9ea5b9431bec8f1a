use l_system::system::dump;
use l_system::text::{is_whitespace, state_of};
use l_system::Symbol;

#[test]
fn operators_read_and_write_back() {
    let text = "Ff+-|[]#!@{}><&()";
    let state = state_of(text);
    assert_eq!(
        state,
        vec![
            Symbol::Draw,
            Symbol::Move,
            Symbol::Left,
            Symbol::Right,
            Symbol::Reverse,
            Symbol::Push,
            Symbol::Pop,
            Symbol::IncLine,
            Symbol::DecLine,
            Symbol::Dot,
            Symbol::OpenPolygon,
            Symbol::ClosePolygon,
            Symbol::MulLine,
            Symbol::DivLine,
            Symbol::SwapOperations,
            Symbol::IncAngle,
            Symbol::DecAngle,
        ]
    );
    assert_eq!(dump(&state), text);
}

#[test]
fn other_characters_are_variables() {
    assert_eq!(Symbol::from('A'), Symbol::Var('A'));
    assert_ne!(Symbol::from('A'), Symbol::from('B'));
    assert_eq!(Symbol::Var('é').to_char(), 'é');
    assert_eq!(Symbol::Draw.to_char(), 'F');
}

#[test]
fn whitespace_is_skipped() {
    assert_eq!(dump(&state_of(" F +\tF\u{3000}x ")), "F+Fx");
    assert!(state_of("   ").is_empty());
    assert!(is_whitespace('\u{a0}'));
    assert!(!is_whitespace('a'));
}

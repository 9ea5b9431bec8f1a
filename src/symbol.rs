//! The rewriting alphabet: a fixed set of turtle operators plus placeholder
//! variables that carry an arbitrary character.
use vstd::prelude::*;

verus! {

/// One symbol of a generation.
///
/// Operators are written with the glyphs of the classic turtle notation
/// (`F`, `f`, `+`, `-`, `|`, `[`, `]`, `#`, `!`, `@`, `{`, `}`, `>`, `<`,
/// `&`, `(`, `)`); every other character is a `Var`.
#[derive(Debug, Clone, Copy, PartialEq, Eq, Hash, Structural)]
pub enum Symbol {
    Var(char),
    Draw,
    Move,
    Left,
    Right,
    Reverse,
    Push,
    Pop,
    IncLine,
    DecLine,
    Dot,
    OpenPolygon,
    ClosePolygon,
    MulLine,
    DivLine,
    SwapOperations,
    IncAngle,
    DecAngle,
}

/// The symbol that a character stands for.
pub open spec fn symbol_of(c: char) -> Symbol {
    if c == 'F' {
        Symbol::Draw
    } else if c == 'f' {
        Symbol::Move
    } else if c == '+' {
        Symbol::Left
    } else if c == '-' {
        Symbol::Right
    } else if c == '|' {
        Symbol::Reverse
    } else if c == '[' {
        Symbol::Push
    } else if c == ']' {
        Symbol::Pop
    } else if c == '#' {
        Symbol::IncLine
    } else if c == '!' {
        Symbol::DecLine
    } else if c == '@' {
        Symbol::Dot
    } else if c == '{' {
        Symbol::OpenPolygon
    } else if c == '}' {
        Symbol::ClosePolygon
    } else if c == '>' {
        Symbol::MulLine
    } else if c == '<' {
        Symbol::DivLine
    } else if c == '&' {
        Symbol::SwapOperations
    } else if c == '(' {
        Symbol::IncAngle
    } else if c == ')' {
        Symbol::DecAngle
    } else {
        Symbol::Var(c)
    }
}

/// The glyph that a symbol is written with.
pub open spec fn glyph_of(s: Symbol) -> char {
    match s {
        Symbol::Var(c) => c,
        Symbol::Draw => 'F',
        Symbol::Move => 'f',
        Symbol::Left => '+',
        Symbol::Right => '-',
        Symbol::Reverse => '|',
        Symbol::Push => '[',
        Symbol::Pop => ']',
        Symbol::IncLine => '#',
        Symbol::DecLine => '!',
        Symbol::Dot => '@',
        Symbol::OpenPolygon => '{',
        Symbol::ClosePolygon => '}',
        Symbol::MulLine => '>',
        Symbol::DivLine => '<',
        Symbol::SwapOperations => '&',
        Symbol::IncAngle => '(',
        Symbol::DecAngle => ')',
    }
}

impl Symbol {
    /// The glyph of this symbol.
    pub fn to_char(&self) -> (r: char)
        ensures
            r == glyph_of(*self),
    {
        match self {
            Symbol::Var(c) => *c,
            Symbol::Draw => 'F',
            Symbol::Move => 'f',
            Symbol::Left => '+',
            Symbol::Right => '-',
            Symbol::Reverse => '|',
            Symbol::Push => '[',
            Symbol::Pop => ']',
            Symbol::IncLine => '#',
            Symbol::DecLine => '!',
            Symbol::Dot => '@',
            Symbol::OpenPolygon => '{',
            Symbol::ClosePolygon => '}',
            Symbol::MulLine => '>',
            Symbol::DivLine => '<',
            Symbol::SwapOperations => '&',
            Symbol::IncAngle => '(',
            Symbol::DecAngle => ')',
        }
    }
}

impl From<char> for Symbol {
    fn from(c: char) -> (r: Symbol) {
        match c {
            'F' => Symbol::Draw,
            'f' => Symbol::Move,
            '+' => Symbol::Left,
            '-' => Symbol::Right,
            '|' => Symbol::Reverse,
            '[' => Symbol::Push,
            ']' => Symbol::Pop,
            '#' => Symbol::IncLine,
            '!' => Symbol::DecLine,
            '@' => Symbol::Dot,
            '{' => Symbol::OpenPolygon,
            '}' => Symbol::ClosePolygon,
            '>' => Symbol::MulLine,
            '<' => Symbol::DivLine,
            '&' => Symbol::SwapOperations,
            '(' => Symbol::IncAngle,
            ')' => Symbol::DecAngle,
            c => Symbol::Var(c),
        }
    }
}

impl vstd::std_specs::convert::FromSpecImpl<char> for Symbol {
    open spec fn obeys_from_spec() -> bool {
        true
    }

    open spec fn from_spec(c: char) -> Symbol {
        symbol_of(c)
    }
}

} // verus!

use l_system::system::{dump, System};
use l_system::text::state_of;
use l_system::{Rules, Symbol};

fn generations(system: System, n: usize) -> Vec<String> {
    let mut iterator = system.into_iter();
    let mut out = Vec::new();
    for _ in 0..n {
        let state = iterator.next().unwrap();
        out.push(dump(&state));
    }
    out
}

#[test]
fn test_algae() {
    let mut rules = Rules::new();
    rules.insert(Symbol::from('A'), state_of("AB"));
    rules.insert(Symbol::from('B'), state_of("A"));

    let start = state_of("A");

    let system = System::new(rules, vec![], start);

    let expected = vec![
        "A",
        "AB",
        "ABA",
        "ABAAB",
        "ABAABABA",
        "ABAABABAABAAB",
        "ABAABABAABAABABAABABA",
        "ABAABABAABAABABAABABAABAABABAABAAB",
    ];

    let actual = generations(system, expected.len());

    assert_eq!(actual, expected);
}

#[test]
fn test_fractal_tree() {
    let mut rules = Rules::new();
    rules.insert(Symbol::from('1'), state_of("11"));
    rules.insert(Symbol::from('0'), state_of("1[0]0"));
    let start = state_of("0");

    let system = System::new(rules, vec![], start);

    let expected = vec![
        "0",
        "1[0]0",
        "11[1[0]0]1[0]0",
        "1111[11[1[0]0]1[0]0]11[1[0]0]1[0]0",
    ];

    let actual = generations(system, expected.len());

    assert_eq!(actual, expected);
}

#[test]
fn test_koch_curve() {
    let mut rules = Rules::new();
    rules.insert(Symbol::from('F'), state_of("F+F-F-F+F"));
    let start = vec![Symbol::from('F')];

    let system = System::new(rules, vec![], start);

    let expected = vec![
        "F",
        "F+F-F-F+F",
        "F+F-F-F+F+F+F-F-F+F-F+F-F-F+F-F+F-F-F+F+F+F-F-F+F",
        "F+F-F-F+F+F+F-F-F+F-F+F-F-F+F-F+F-F-F+F+F+F-F-F+F+\
F+F-F-F+F+F+F-F-F+F-F+F-F-F+F-F+F-F-F+F+F+F-F-F+F-\
F+F-F-F+F+F+F-F-F+F-F+F-F-F+F-F+F-F-F+F+F+F-F-F+F-\
F+F-F-F+F+F+F-F-F+F-F+F-F-F+F-F+F-F-F+F+F+F-F-F+F+\
F+F-F-F+F+F+F-F-F+F-F+F-F-F+F-F+F-F-F+F+F+F-F-F+F",
    ];

    let actual = generations(system, expected.len());

    assert_eq!(actual, expected);
}

#[test]
fn koch_with_constants() {
    let mut rules = Rules::new();
    rules.insert(Symbol::Draw, state_of("F+F-F-F+F"));
    let system = System::new(rules, vec![Symbol::Left, Symbol::Right], state_of("F"));
    let actual = generations(system, 3);
    assert_eq!(actual[1], "F+F-F-F+F");
    assert_eq!(
        actual[2],
        "F+F-F-F+F+F+F-F-F+F-F+F-F-F+F-F+F-F-F+F+F+F-F-F+F"
    );
}

#[test]
fn fractal_tree_with_constants() {
    let mut rules = Rules::new();
    rules.insert(Symbol::from('1'), state_of("11"));
    rules.insert(Symbol::from('0'), state_of("1[0]0"));
    let system = System::new(rules, vec![Symbol::Push, Symbol::Pop], state_of("0"));
    let actual = generations(system, 3);
    assert_eq!(actual[2], "11[1[0]0]1[0]0");
}

#[test]
fn generation_zero_is_the_start() {
    let mut rules = Rules::new();
    rules.insert(Symbol::from('A'), state_of("AB"));
    let system = System::new(rules, vec![], state_of("BA+"));
    let mut iterator = system.into_iter();
    assert_eq!(dump(iterator.state()), "BA+");
    assert_eq!(dump(&iterator.next().unwrap()), "BA+");
    assert_eq!(dump(iterator.state()), "BAB+");
}

#[test]
fn length_is_sum_of_expansion_lengths() {
    let mut rules = Rules::new();
    rules.insert(Symbol::from('A'), state_of("ABC"));
    rules.insert(Symbol::from('B'), vec![]);
    let system = System::new(rules, vec![], state_of("AABx"));
    let mut iterator = system.into_iter();
    iterator.next();
    // 3 + 3 + 0 + 1
    assert_eq!(iterator.state().len(), 7);
    assert_eq!(dump(iterator.state()), "ABCABCx");
}

#[test]
fn constant_reproduces_itself() {
    let mut rules = Rules::new();
    rules.insert(Symbol::from('X'), state_of("X+X"));
    let system = System::new(rules, vec![Symbol::Left], state_of("+"));
    let actual = generations(system, 5);
    for g in actual {
        assert_eq!(g, "+");
    }
}

#[test]
fn existing_rule_wins_over_constant() {
    let mut rules = Rules::new();
    rules.insert(Symbol::Left, state_of("++"));
    let system = System::new(rules, vec![Symbol::Left], state_of("+"));
    let actual = generations(system, 3);
    assert_eq!(actual, vec!["+", "++", "++++"]);
}

#[test]
fn two_runs_agree() {
    let make = || {
        let mut rules = Rules::new();
        rules.insert(Symbol::from('A'), state_of("AB"));
        rules.insert(Symbol::from('B'), state_of("A"));
        System::new(rules, vec![], state_of("A"))
    };
    let system = make();
    let first = generations(system, 10);
    let second_system = make();
    let mut again = second_system.iter();
    for g in &first {
        assert_eq!(&dump(&again.next().unwrap()), g);
    }
    assert_eq!(generations(second_system, 10), first);
}

#[test]
fn later_rule_replaces_earlier() {
    let mut rules = Rules::new();
    rules.insert(Symbol::from('A'), state_of("B"));
    rules.insert(Symbol::from('A'), state_of("CC"));
    assert!(rules.contains_key(&Symbol::from('A')));
    assert!(!rules.contains_key(&Symbol::from('B')));
    assert_eq!(dump(rules.get(&Symbol::from('A')).unwrap()), "CC");
    assert!(rules.get(&Symbol::from('C')).is_none());
}

#[test]
fn empty_start_stays_empty() {
    let mut rules = Rules::new();
    rules.insert(Symbol::from('A'), state_of("AB"));
    let system = System::new(rules, vec![], vec![]);
    assert_eq!(generations(system, 3), vec!["", "", ""]);
}

use l_system::advancer::{Advancer, Command};
use l_system::system::{dump, System};
use l_system::text::state_of;
use l_system::{Rules, Symbol};

fn algae() -> System {
    let mut rules = Rules::new();
    rules.insert(Symbol::from('A'), state_of("AB"));
    rules.insert(Symbol::from('B'), state_of("A"));
    System::new(rules, vec![], state_of("A"))
}

#[test]
fn advance_and_reset() {
    let mut advancer = Advancer::new(algae());
    assert_eq!(advancer.generation(), 0);
    assert_eq!(dump(advancer.state()), "A");
    assert!(advancer.handle(Command::Advance));
    assert!(advancer.handle(Command::Advance));
    assert!(advancer.handle(Command::Advance));
    assert_eq!(advancer.generation(), 3);
    assert_eq!(dump(advancer.state()), "ABAAB");
    assert!(advancer.handle(Command::Reset));
    assert_eq!(advancer.generation(), 0);
    assert_eq!(dump(advancer.state()), "A");
    assert!(advancer.handle(Command::Advance));
    assert_eq!(dump(advancer.state()), "AB");
}

#[test]
fn shutdown_stops_and_keeps_state() {
    let mut advancer = Advancer::new(algae());
    advancer.handle(Command::Advance);
    assert!(!advancer.handle(Command::Shutdown));
    assert_eq!(advancer.generation(), 1);
    assert_eq!(dump(advancer.state()), "AB");
}

use std::collections::HashSet;
use wayclip_daemon::controller::{ControllerEvent, ControllerManager};

fn both(held: &HashSet<u32>) -> bool {
    held.contains(&1) && held.contains(&2)
}

fn step(m: &mut ControllerManager, event: ControllerEvent) -> bool {
    m.hold(event);
    let satisfied = both(&m.held);
    m.on_event(event, satisfied)
}

#[test]
fn combo_fires_when_all_are_held() {
    let mut m = ControllerManager::new();
    assert!(!step(&mut m, ControllerEvent::Pressed(1)));
    assert!(!step(&mut m, ControllerEvent::Other));
    assert!(step(&mut m, ControllerEvent::Pressed(2)));
    assert_eq!(m.held, HashSet::from([1, 2]));
}

#[test]
fn held_combo_fires_once() {
    let mut m = ControllerManager::new();
    assert!(!step(&mut m, ControllerEvent::Pressed(1)));
    assert!(step(&mut m, ControllerEvent::Pressed(2)));
    assert!(!step(&mut m, ControllerEvent::Pressed(3)));
    assert!(!step(&mut m, ControllerEvent::Pressed(2)));
    assert!(!step(&mut m, ControllerEvent::Released(3)));
    assert!(!step(&mut m, ControllerEvent::Pressed(3)));
}

#[test]
fn released_combo_fires_again() {
    let mut m = ControllerManager::new();
    assert!(!step(&mut m, ControllerEvent::Pressed(1)));
    assert!(step(&mut m, ControllerEvent::Pressed(2)));
    assert!(!step(&mut m, ControllerEvent::Released(1)));
    assert!(step(&mut m, ControllerEvent::Pressed(1)));
}

#[test]
fn lost_controller_forgets_what_was_held() {
    let mut m = ControllerManager::new();
    assert!(!step(&mut m, ControllerEvent::Pressed(1)));
    assert!(step(&mut m, ControllerEvent::Pressed(2)));
    assert!(!step(&mut m, ControllerEvent::Disconnected));
    assert!(m.held.is_empty());
    assert!(!step(&mut m, ControllerEvent::Pressed(2)));
    assert!(step(&mut m, ControllerEvent::Pressed(1)));
}

#[test]
fn only_presses_of_a_satisfied_combo_fire() {
    let mut m = ControllerManager::new();
    assert!(!m.on_event(ControllerEvent::Released(1), true));
    assert!(!m.on_event(ControllerEvent::Other, true));
    assert!(!m.on_event(ControllerEvent::Pressed(1), false));
    assert!(m.on_event(ControllerEvent::Pressed(1), true));
}

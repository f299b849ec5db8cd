use engine::state::{entities_scoped_to, CustomEvent, Scoped, State, StateError, StateMachine, Transition};
use std::any::TypeId;

/// A state that records every hook it runs in the world (a log), and answers events and
/// updates with a transition taken from its script.
struct Scripted {
    name: &'static str,
    on_event: Vec<Transition<Scripted>>,
    on_update: Vec<Transition<Scripted>>,
}

fn scripted(name: &'static str) -> Scripted {
    Scripted { name, on_event: Vec::new(), on_update: Vec::new() }
}

impl State<Vec<String>, u32, u32> for Scripted {
    fn on_start(&mut self, world: &mut Vec<String>, _r: &mut u32) {
        world.push(format!("start {}", self.name));
    }
    fn on_stop(&mut self, world: &mut Vec<String>, _r: &mut u32) {
        world.push(format!("stop {}", self.name));
    }
    fn on_pause(&mut self, world: &mut Vec<String>, _r: &mut u32) {
        world.push(format!("pause {}", self.name));
    }
    fn on_resume(&mut self, world: &mut Vec<String>, _r: &mut u32) {
        world.push(format!("resume {}", self.name));
    }
    fn handle_event(&mut self, world: &mut Vec<String>, _r: &mut u32, event: u32) -> Transition<Self> {
        world.push(format!("event {} {}", self.name, event));
        if self.on_event.is_empty() { Transition::Stay } else { self.on_event.remove(0) }
    }
    fn update(&mut self, world: &mut Vec<String>, _r: &mut u32) -> Transition<Self> {
        world.push(format!("update {}", self.name));
        if self.on_update.is_empty() { Transition::Stay } else { self.on_update.remove(0) }
    }
    fn update_inactive(&mut self, world: &mut Vec<String>, _r: &mut u32) {
        world.push(format!("inactive {}", self.name));
    }
}

/// A state whose hooks do nothing and answer `Stay`.
struct Quiet;
impl State<Vec<String>, u32, u32> for Quiet {
    fn on_start(&mut self, _world: &mut Vec<String>, _r: &mut u32) {}
    fn on_stop(&mut self, _world: &mut Vec<String>, _r: &mut u32) {}
    fn on_pause(&mut self, _world: &mut Vec<String>, _r: &mut u32) {}
    fn on_resume(&mut self, _world: &mut Vec<String>, _r: &mut u32) {}
    fn handle_event(&mut self, _world: &mut Vec<String>, _r: &mut u32, _event: u32) -> Transition<Self> {
        Transition::Stay
    }
    fn update(&mut self, _world: &mut Vec<String>, _r: &mut u32) -> Transition<Self> {
        Transition::Stay
    }
    fn update_inactive(&mut self, _world: &mut Vec<String>, _r: &mut u32) {}
}

#[test]
fn start_runs_on_start_of_the_top_state() {
    let mut m = StateMachine::new(scripted("a"));
    let mut log = Vec::new();
    let mut r = 0u32;
    assert_eq!(m.start(&mut log, &mut r), Ok(()));
    assert_eq!(log, vec!["start a".to_string()]);
    assert_eq!(m.len(), 1);
}

#[test]
fn start_on_an_empty_machine_fails() {
    let mut m = StateMachine::new(scripted("a"));
    let mut log = Vec::new();
    let mut r = 0u32;
    m.stop(&mut log, &mut r);
    assert_eq!(m.len(), 0);
    assert_eq!(m.start(&mut log, &mut r), Err(StateError::NoStatesPresent));
}

#[test]
fn push_pauses_and_starts_then_pop_stops_and_resumes() {
    let mut m = StateMachine::new(scripted("a"));
    let mut log = Vec::new();
    let mut r = 0u32;
    m.transition(Transition::Push(scripted("b")), &mut log, &mut r);
    assert_eq!(m.len(), 2);
    m.transition(Transition::Pop, &mut log, &mut r);
    assert_eq!(m.len(), 1);
    assert_eq!(log, vec!["pause a", "start b", "stop b", "resume a"]);
}

#[test]
fn switch_stops_the_top_and_starts_the_new_state() {
    let mut m = StateMachine::new(scripted("a"));
    let mut log = Vec::new();
    let mut r = 0u32;
    m.transition(Transition::Switch(scripted("b")), &mut log, &mut r);
    assert_eq!(m.len(), 1);
    assert_eq!(log, vec!["stop a", "start b"]);
}

#[test]
fn switch_on_an_empty_stack_pushes() {
    let mut m = StateMachine::new(scripted("a"));
    let mut log = Vec::new();
    let mut r = 0u32;
    m.stop(&mut log, &mut r);
    m.transition(Transition::Switch(scripted("b")), &mut log, &mut r);
    assert_eq!(m.len(), 1);
    assert_eq!(log, vec!["stop a", "start b"]);
}

#[test]
fn pop_on_an_empty_stack_does_nothing() {
    let mut m = StateMachine::new(scripted("a"));
    let mut log = Vec::new();
    let mut r = 0u32;
    m.transition(Transition::Pop, &mut log, &mut r);
    assert_eq!(m.len(), 0);
    m.transition(Transition::Pop, &mut log, &mut r);
    assert_eq!(m.len(), 0);
    assert_eq!(log, vec!["stop a"]);
}

#[test]
fn stay_changes_nothing() {
    let mut m = StateMachine::new(scripted("a"));
    let mut log = Vec::new();
    let mut r = 0u32;
    m.transition(Transition::Stay, &mut log, &mut r);
    assert_eq!(m.len(), 1);
    assert!(log.is_empty());
}

#[test]
fn stop_stops_every_state_from_the_top_down() {
    let mut m = StateMachine::new(scripted("a"));
    let mut log = Vec::new();
    let mut r = 0u32;
    m.transition(Transition::Push(scripted("b")), &mut log, &mut r);
    m.transition(Transition::Push(scripted("c")), &mut log, &mut r);
    log.clear();
    m.stop(&mut log, &mut r);
    assert_eq!(m.len(), 0);
    assert_eq!(log, vec!["stop c", "stop b", "stop a"]);
}

#[test]
fn handle_event_goes_to_the_top_state_and_applies_its_answer() {
    let mut a = scripted("a");
    a.on_event.push(Transition::Push(scripted("b")));
    let mut m = StateMachine::new(a);
    let mut log = Vec::new();
    let mut r = 0u32;
    m.handle_event(&mut log, &mut r, 7);
    assert_eq!(m.len(), 2);
    m.handle_event(&mut log, &mut r, 8);
    assert_eq!(m.len(), 2);
    assert_eq!(log, vec!["event a 7", "pause a", "start b", "event b 8"]);
}

#[test]
fn update_updates_the_top_then_every_state_then_transitions() {
    let mut a = scripted("a");
    a.on_update.push(Transition::Push(scripted("b")));
    let mut m = StateMachine::new(a);
    let mut log = Vec::new();
    let mut r = 0u32;
    m.update(&mut log, &mut r);
    assert_eq!(log, vec!["update a", "inactive a", "pause a", "start b"]);
    log.clear();
    m.update(&mut log, &mut r);
    assert_eq!(log, vec!["update b", "inactive a", "inactive b"]);
    assert_eq!(m.len(), 2);
}

#[test]
fn update_with_pop_answer_returns_to_the_state_below() {
    let mut a = scripted("a");
    let mut b = scripted("b");
    b.on_update.push(Transition::Pop);
    a.on_update.push(Transition::Push(b));
    let mut m = StateMachine::new(a);
    let mut log = Vec::new();
    let mut r = 0u32;
    m.update(&mut log, &mut r);
    m.update(&mut log, &mut r);
    assert_eq!(m.len(), 1);
    assert_eq!(log[log.len() - 2..].to_vec(), vec!["stop b", "resume a"]);
}

#[test]
fn default_hooks_do_nothing() {
    let mut m = StateMachine::new(Quiet);
    let mut log = Vec::new();
    let mut r = 0u32;
    m.start(&mut log, &mut r).unwrap();
    m.update(&mut log, &mut r);
    m.handle_event(&mut log, &mut r, 1);
    assert_eq!(m.len(), 1);
    assert!(log.is_empty());
}

#[test]
fn custom_event_exit_compares() {
    assert_eq!(CustomEvent::Exit, CustomEvent::Exit);
}

struct Menu;
struct Level;

#[test]
fn stopping_a_state_removes_the_entities_scoped_to_it() {
    let menu = Scoped { id: TypeId::of::<Menu>() };
    let level = Scoped { id: TypeId::of::<Level>() };
    let entities = vec![(1u32, level), (2, menu), (3, level), (4, level), (5, menu)];
    assert_eq!(entities_scoped_to(&entities, &TypeId::of::<Level>()), vec![1, 3, 4]);
    assert_eq!(entities_scoped_to(&entities, &TypeId::of::<Menu>()), vec![2, 5]);
    assert_eq!(entities_scoped_to(&entities, &TypeId::of::<u8>()), Vec::<u32>::new());
    assert_eq!(entities_scoped_to(&Vec::<(u32, Scoped)>::new(), &TypeId::of::<Level>()), Vec::<u32>::new());
}

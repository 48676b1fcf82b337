use std::cell::RefCell;
use std::rc::Rc;
use std::time::Duration;

use amethyst::{State, StateMachine, Trans};

type Log = Rc<RefCell<Vec<String>>>;

/// What a scripted state asks for on one `update`.
#[derive(Clone)]
enum Step {
    Stay,
    Pop,
    Push(&'static str),
    Switch(&'static str),
    Quit,
}

/// A state that records every callback and replays a script of requests.
struct Rec {
    name: &'static str,
    log: Log,
    script: Vec<Step>,
}

/// A state that overrides nothing but the lifecycle records.
struct Plain;

impl State for Plain {}

impl Rec {
    fn new(name: &'static str, log: &Log, script: Vec<Step>) -> Rec {
        let mut script = script;
        script.reverse();
        Rec { name, log: log.clone(), script }
    }

    fn note(&self, what: &str) {
        self.log.borrow_mut().push(format!("{} {}", what, self.name));
    }
}

impl State for Rec {
    fn on_start(&mut self) {
        self.note("start");
    }

    fn on_stop(&mut self) {
        self.note("stop");
    }

    fn on_pause(&mut self) {
        self.note("pause");
    }

    fn on_resume(&mut self) {
        self.note("resume");
    }

    fn handle_events(&mut self, events: &Vec<i32>) {
        self.note(&format!("events{:?}", events));
    }

    fn fixed_update(&mut self, _delta: Duration) -> Trans<Rec> {
        self.note("fixed");
        Trans::Stay
    }

    fn update(&mut self, delta: Duration) -> Trans<Rec> {
        self.note("update");
        let log = self.log.clone();
        match self.script.pop() {
            Some(Step::Stay) => Trans::Stay,
            Some(Step::Pop) => Trans::Pop,
            Some(Step::Push(n)) => Trans::Push(Rec::new(n, &log, vec![])),
            Some(Step::Switch(n)) => Trans::Switch(Rec::new(n, &log, vec![])),
            Some(Step::Quit) => Trans::Quit,
            // Out of script: do what a state without an `update` of its own does.
            None => match Plain.update(delta) {
                Trans::Stay => Trans::Stay,
                Trans::Pop => Trans::Pop,
                Trans::Quit => Trans::Quit,
                _ => panic!("the default update asks for no new state"),
            },
        }
    }
}

fn dt() -> Duration {
    Duration::from_millis(16)
}

fn new_log() -> Log {
    Rc::new(RefCell::new(Vec::new()))
}

fn take(log: &Log) -> Vec<String> {
    std::mem::take(&mut *log.borrow_mut())
}

fn top_name(m: &mut StateMachine<Rec>) -> Option<&'static str> {
    m.current().map(|s| s.name)
}

#[test]
fn push_pop_then_default_update_empties_stack() {
    let log = new_log();
    let mut m = StateMachine::new(Rec::new("A", &log, vec![Step::Push("B")]));
    m.start();
    assert_eq!(take(&log), vec!["start A"]);

    m.update(dt());
    assert_eq!(take(&log), vec!["update A", "pause A", "start B"]);
    assert_eq!(m.depth(), 2);
    assert_eq!(top_name(&mut m), Some("B"));

    // B is out of script: the default update asks for a pop.
    m.update(dt());
    assert_eq!(take(&log), vec!["update B", "stop B", "resume A"]);
    assert_eq!(m.depth(), 1);
    assert_eq!(top_name(&mut m), Some("A"));

    m.update(dt());
    assert_eq!(take(&log), vec!["update A", "stop A"]);
    assert_eq!(m.depth(), 0);
    assert!(m.is_running());
    assert!(top_name(&mut m).is_none());
}

#[test]
fn default_update_pops_plain_state() {
    let mut m = StateMachine::new(Plain);
    m.start();
    m.update(dt());
    assert_eq!(m.depth(), 0);
    assert!(m.is_running());
}

#[test]
fn default_fixed_update_keeps_plain_state() {
    let mut m = StateMachine::new(Plain);
    m.start();
    m.fixed_update(dt());
    m.fixed_update(dt());
    assert_eq!(m.depth(), 1);
    assert!(m.is_running());
}

#[test]
fn switch_replaces_top() {
    let log = new_log();
    let mut m = StateMachine::new(Rec::new("A", &log, vec![Step::Switch("C")]));
    m.start();
    take(&log);
    m.update(dt());
    assert_eq!(take(&log), vec!["update A", "stop A", "start C"]);
    assert_eq!(m.depth(), 1);
    assert_eq!(top_name(&mut m), Some("C"));
}

#[test]
fn ticks_before_start_do_nothing() {
    let log = new_log();
    let mut m = StateMachine::new(Rec::new("A", &log, vec![Step::Push("B")]));
    m.handle_events(&vec![1, 2]);
    m.fixed_update(dt());
    m.update(dt());
    assert!(take(&log).is_empty());
    assert_eq!(m.depth(), 1);
    assert!(!m.is_running());
    assert_eq!(top_name(&mut m), Some("A"));
}

#[test]
fn operations_before_start_do_nothing() {
    let log = new_log();
    let mut m = StateMachine::new(Rec::new("A", &log, vec![]));
    m.push(Rec::new("B", &log, vec![]));
    m.switch(Rec::new("C", &log, vec![]));
    m.pop();
    m.stop();
    assert!(take(&log).is_empty());
    assert_eq!(m.depth(), 1);
    assert_eq!(top_name(&mut m), Some("A"));
}

#[test]
fn start_twice_starts_once() {
    let log = new_log();
    let mut m = StateMachine::new(Rec::new("A", &log, vec![]));
    assert!(!m.is_running());
    m.start();
    m.start();
    assert_eq!(take(&log), vec!["start A"]);
    assert!(m.is_running());
}

#[test]
fn stop_stops_each_entry_top_down() {
    let log = new_log();
    let mut m = StateMachine::new(Rec::new("A", &log, vec![]));
    m.start();
    m.push(Rec::new("B", &log, vec![]));
    m.push(Rec::new("C", &log, vec![]));
    take(&log);
    m.stop();
    assert_eq!(take(&log), vec!["stop C", "stop B", "stop A"]);
    assert!(!m.is_running());
    assert_eq!(m.depth(), 3);
}

#[test]
fn stop_when_stopped_calls_nothing() {
    let log = new_log();
    let mut m = StateMachine::new(Rec::new("A", &log, vec![]));
    m.stop();
    assert!(take(&log).is_empty());
    m.start();
    m.stop();
    take(&log);
    m.stop();
    assert!(take(&log).is_empty());
    assert!(!m.is_running());
}

#[test]
fn quit_unwinds_whole_stack() {
    let log = new_log();
    let mut m = StateMachine::new(Rec::new("A", &log, vec![]));
    m.start();
    m.push(Rec::new("B", &log, vec![]));
    m.push(Rec::new("C", &log, vec![Step::Quit]));
    take(&log);
    m.update(dt());
    assert_eq!(take(&log), vec!["update C", "stop C", "stop B", "stop A"]);
    assert!(!m.is_running());
    // A stopped machine ignores further ticks.
    m.update(dt());
    m.handle_events(&vec![7]);
    assert!(take(&log).is_empty());
}

#[test]
fn quit_from_single_entry() {
    let log = new_log();
    let mut m = StateMachine::new(Rec::new("A", &log, vec![Step::Quit]));
    m.start();
    take(&log);
    m.update(dt());
    assert_eq!(take(&log), vec!["update A", "stop A"]);
    assert!(!m.is_running());
    assert_eq!(m.depth(), 1);
}

#[test]
fn depth_follows_requests() {
    let log = new_log();
    let script = vec![
        Step::Push("B"),
        Step::Stay,
        Step::Switch("C"),
        Step::Pop,
    ];
    let mut m = StateMachine::new(Rec::new("A", &log, vec![]));
    m.start();
    m.push(Rec::new("S", &log, script));
    assert_eq!(m.depth(), 2);
    // S pushes B; B pops itself by default.
    m.update(dt());
    assert_eq!(m.depth(), 3);
    m.update(dt());
    assert_eq!(m.depth(), 2);
    assert_eq!(top_name(&mut m), Some("S"));
    m.update(dt());
    assert_eq!(m.depth(), 2);
    m.update(dt());
    assert_eq!(m.depth(), 2);
    assert_eq!(top_name(&mut m), Some("C"));
    m.update(dt());
    assert_eq!(m.depth(), 1);
    assert_eq!(top_name(&mut m), Some("A"));
}

#[test]
fn handle_events_reaches_top_only() {
    let log = new_log();
    let mut m = StateMachine::new(Rec::new("A", &log, vec![]));
    m.start();
    m.push(Rec::new("B", &log, vec![]));
    take(&log);
    m.handle_events(&vec![3, 4]);
    assert_eq!(take(&log), vec!["events[3, 4] B"]);
    assert_eq!(m.depth(), 2);
}

#[test]
fn fixed_update_reaches_top_only() {
    let log = new_log();
    let mut m = StateMachine::new(Rec::new("A", &log, vec![]));
    m.start();
    m.push(Rec::new("B", &log, vec![]));
    take(&log);
    m.fixed_update(dt());
    assert_eq!(take(&log), vec!["fixed B"]);
    assert_eq!(m.depth(), 2);
}

#[test]
fn empty_running_stack_ignores_ticks_and_accepts_push() {
    let log = new_log();
    let mut m = StateMachine::new(Rec::new("A", &log, vec![Step::Pop]));
    m.start();
    m.update(dt());
    assert_eq!(m.depth(), 0);
    take(&log);
    m.update(dt());
    m.fixed_update(dt());
    m.handle_events(&vec![1]);
    m.pop();
    assert!(take(&log).is_empty());
    assert_eq!(m.depth(), 0);
    m.push(Rec::new("B", &log, vec![]));
    assert_eq!(take(&log), vec!["start B"]);
    assert_eq!(m.depth(), 1);
}

#[test]
fn switch_on_empty_running_stack_starts_new_state() {
    let log = new_log();
    let mut m = StateMachine::new(Rec::new("A", &log, vec![]));
    m.start();
    m.pop();
    assert_eq!(m.depth(), 0);
    take(&log);
    m.switch(Rec::new("C", &log, vec![]));
    assert_eq!(take(&log), vec!["start C"]);
    assert_eq!(m.depth(), 1);
    assert_eq!(top_name(&mut m), Some("C"));
}

#[test]
fn current_gives_mutable_top() {
    let log = new_log();
    let mut m = StateMachine::new(Rec::new("A", &log, vec![]));
    m.start();
    m.push(Rec::new("B", &log, vec![]));
    if let Some(s) = m.current() {
        s.name = "Z";
    }
    assert_eq!(top_name(&mut m), Some("Z"));
    m.pop();
    assert_eq!(top_name(&mut m), Some("A"));
}

/// A state that records the time steps it is handed and never leaves.
struct Clock {
    seen: Rc<RefCell<Vec<Duration>>>,
}

impl State for Clock {
    fn fixed_update(&mut self, delta: Duration) -> Trans<Clock> {
        self.seen.borrow_mut().push(delta);
        Trans::Stay
    }

    fn update(&mut self, delta: Duration) -> Trans<Clock> {
        self.seen.borrow_mut().push(delta);
        Trans::Stay
    }
}

#[test]
fn ticks_hand_on_time_step() {
    let seen = Rc::new(RefCell::new(Vec::new()));
    let mut m = StateMachine::new(Clock { seen: seen.clone() });
    m.update(Duration::from_millis(5));
    m.start();
    m.fixed_update(Duration::from_millis(10));
    m.update(Duration::from_millis(33));
    assert_eq!(
        *seen.borrow(),
        vec![Duration::from_millis(10), Duration::from_millis(33)]
    );
    assert_eq!(m.depth(), 1);
}

use scriptcore::sequence::chain::Chain;
use scriptcore::sequence::sequencer::Sequencer;
use scriptcore::sequence::then::Then;
use scriptcore::sequence::{Done, Outcome, Running, Sequence};

/// The world of these tests: a log of who was updated at which tick.
type Log = Vec<(u32, u64)>;

/// Reports the scripted outcomes one after another and logs every update.
struct Scripted {
    name: u32,
    outcomes: Vec<Outcome>,
    next: usize,
}

impl Scripted {
    fn new(name: u32, outcomes: Vec<Outcome>) -> Self {
        Scripted { name, outcomes, next: 0 }
    }
}

impl Sequence<Log> for Scripted {
    fn update(&mut self, time: u64, world: &mut Log) -> Outcome {
        world.push((self.name, time));
        let r = self.outcomes[self.next];
        self.next += 1;
        r
    }
}

const RUN: Outcome = Outcome::Running(Running::NotLagging);
const LAG: Outcome = Outcome::Running(Running::Lagging);
const DONE: Outcome = Outcome::Done(Done::Normal);
const NOW: Outcome = Outcome::Done(Done::AdvanceNow);

#[test]
fn then_passes_running_on_unchanged() {
    let mut t = Then::new(Scripted::new(1, vec![LAG, RUN]), Scripted::new(2, vec![]));
    let mut log = Log::new();
    assert!(t.first_pending());
    assert_eq!(t.update(1, &mut log), LAG);
    assert_eq!(t.update(2, &mut log), RUN);
    assert!(t.first_pending());
    assert_eq!(log, vec![(1, 1), (1, 2)]);
}

#[test]
fn then_defers_second_after_normal_completion() {
    let a = Scripted::new(1, vec![LAG, DONE]);
    let b = Scripted::new(2, vec![NOW]);
    let mut t = Then::new(a, b);
    let mut log = Log::new();
    assert_eq!(t.update(9, &mut log), LAG);
    assert_eq!(t.update(10, &mut log), RUN);
    assert!(!t.first_pending());
    assert_eq!(log, vec![(1, 9), (1, 10)]);
    assert_eq!(t.update(11, &mut log), NOW);
    assert_eq!(log, vec![(1, 9), (1, 10), (2, 11)]);
}

#[test]
fn then_runs_second_in_same_call_on_advance_now() {
    let mut t = Then::new(Scripted::new(1, vec![NOW]), Scripted::new(2, vec![LAG, DONE]));
    let mut log = Log::new();
    assert_eq!(t.update(5, &mut log), LAG);
    assert_eq!(log, vec![(1, 5), (2, 5)]);
    assert_eq!(t.update(6, &mut log), DONE);
    assert_eq!(log, vec![(1, 5), (2, 5), (2, 6)]);
}

#[test]
fn then_first_is_never_updated_after_it_finished() {
    let mut t = Then::new(Scripted::new(1, vec![DONE]), Scripted::new(2, vec![RUN, RUN, DONE]));
    let mut log = Log::new();
    assert_eq!(t.update(1, &mut log), RUN);
    assert_eq!(t.update(2, &mut log), RUN);
    assert_eq!(t.update(3, &mut log), RUN);
    assert_eq!(t.update(4, &mut log), DONE);
    assert_eq!(log, vec![(1, 1), (2, 2), (2, 3), (2, 4)]);
}

#[test]
fn advance_now_collapses_left_nested_chain() {
    let inner = Then::new(Scripted::new(1, vec![NOW]), Scripted::new(2, vec![NOW]));
    let mut t = Then::new(inner, Scripted::new(3, vec![RUN]));
    let mut log = Log::new();
    assert_eq!(t.update(7, &mut log), RUN);
    assert_eq!(log, vec![(1, 7), (2, 7), (3, 7)]);
}

#[test]
fn advance_now_collapses_right_nested_chain() {
    let inner = Then::new(Scripted::new(2, vec![NOW]), Scripted::new(3, vec![DONE]));
    let mut t = Then::new(Scripted::new(1, vec![NOW]), inner);
    let mut log = Log::new();
    assert_eq!(t.update(7, &mut log), DONE);
    assert_eq!(log, vec![(1, 7), (2, 7), (3, 7)]);
}

#[test]
fn normal_completion_inside_nested_chain_costs_one_tick_each() {
    let inner = Then::new(Scripted::new(1, vec![DONE]), Scripted::new(2, vec![DONE]));
    let mut t = Then::new(inner, Scripted::new(3, vec![NOW]));
    let mut log = Log::new();
    assert_eq!(t.update(1, &mut log), RUN);
    assert_eq!(t.update(2, &mut log), RUN);
    assert_eq!(t.update(3, &mut log), NOW);
    assert_eq!(log, vec![(1, 1), (2, 2), (3, 3)]);
}

/// What the move and stand actions of the next tests act on.
#[derive(Default)]
struct Field {
    position: usize,
    reached: bool,
    stand_updates: Vec<u64>,
}

/// Walks a path, one step per update, and marks the destination as reached
/// with the last step.
struct Move {
    steps_left: usize,
}

impl Sequence<Field> for Move {
    fn update(&mut self, _time: u64, world: &mut Field) -> Outcome {
        world.position += 1;
        self.steps_left -= 1;
        if self.steps_left == 0 {
            world.reached = true;
            DONE
        } else {
            RUN
        }
    }
}

/// Plays the standing animation for ever.
struct Stand;

impl Sequence<Field> for Stand {
    fn update(&mut self, time: u64, world: &mut Field) -> Outcome {
        world.stand_updates.push(time);
        RUN
    }
}

#[test]
fn move_then_stand_starts_standing_on_the_tick_after_arrival() {
    let mut chain = Then::new(Move { steps_left: 3 }, Stand);
    let mut field = Field::default();
    assert_eq!(chain.update(8, &mut field), RUN);
    assert_eq!(chain.update(9, &mut field), RUN);
    assert_eq!(chain.update(10, &mut field), RUN);
    assert!(field.reached);
    assert_eq!(field.position, 3);
    assert_eq!(field.stand_updates, Vec::<u64>::new());
    assert_eq!(chain.update(11, &mut field), RUN);
    assert_eq!(field.stand_updates, vec![11]);
}

#[test]
fn chain_new_is_live_and_cancel_raises_signal() {
    let mut c = Chain::new(7, Stand);
    assert_eq!(c.subject, 7);
    assert!(!c.is_cancelled());
    c.cancel();
    assert!(c.is_cancelled());
    c.cancel();
    assert!(c.is_cancelled());
    assert_eq!(c.subject, 7);
}

#[test]
fn sequencer_starts_empty() {
    let s: Sequencer<Stand> = Sequencer::new();
    assert_eq!(s.len(), 0);
    assert!(!s.is_active(1));
}

#[test]
fn sequencer_updates_in_registration_order() {
    let mut s = Sequencer::new();
    s.start(30, Scripted::new(3, vec![RUN, RUN]));
    s.start(10, Scripted::new(1, vec![RUN, RUN]));
    s.start(20, Scripted::new(2, vec![RUN, RUN]));
    let mut log = Log::new();
    s.update(1, &mut log);
    assert_eq!(log, vec![(3, 1), (1, 1), (2, 1)]);
    s.update(2, &mut log);
    assert_eq!(log, vec![(3, 1), (1, 1), (2, 1), (3, 2), (1, 2), (2, 2)]);
    assert_eq!(s.len(), 3);
}

#[test]
fn sequencer_never_updates_a_finished_sequence_again() {
    let mut s = Sequencer::new();
    s.start(1, Scripted::new(1, vec![DONE]));
    s.start(2, Scripted::new(2, vec![RUN, NOW]));
    s.start(3, Scripted::new(3, vec![RUN, RUN, RUN]));
    let mut log = Log::new();
    s.update(1, &mut log);
    assert_eq!(s.len(), 2);
    assert!(!s.is_active(1));
    assert!(s.is_active(2));
    s.update(2, &mut log);
    assert_eq!(s.len(), 1);
    assert!(!s.is_active(2));
    s.update(3, &mut log);
    assert_eq!(log, vec![(1, 1), (2, 1), (3, 1), (2, 2), (3, 2), (3, 3)]);
    assert!(s.is_active(3));
}

#[test]
fn start_cancels_the_previous_composition_of_the_subject() {
    let mut s = Sequencer::new();
    s.start(1, Scripted::new(10, vec![RUN, RUN, RUN]));
    s.start(2, Scripted::new(20, vec![RUN, RUN, RUN]));
    let mut log = Log::new();
    s.update(1, &mut log);
    s.start(1, Scripted::new(11, vec![RUN, RUN]));
    // The cancelled chain stays until the next update and is then dropped undriven.
    assert_eq!(s.len(), 3);
    assert!(s.is_active(1));
    s.update(2, &mut log);
    assert_eq!(s.len(), 2);
    assert_eq!(log, vec![(10, 1), (20, 1), (20, 2), (11, 2)]);
    assert!(s.is_active(1));
    assert!(s.is_active(2));
}

#[test]
fn start_for_an_idle_subject_cancels_nothing() {
    let mut s = Sequencer::new();
    s.start(1, Scripted::new(10, vec![RUN]));
    s.start(2, Scripted::new(20, vec![RUN]));
    let mut log = Log::new();
    s.update(1, &mut log);
    assert_eq!(log, vec![(10, 1), (20, 1)]);
    assert_eq!(s.len(), 2);
}

#[test]
fn cancel_reports_whether_a_composition_was_live() {
    let mut s = Sequencer::new();
    s.start(1, Scripted::new(10, vec![RUN]));
    assert!(!s.cancel(2));
    assert!(s.cancel(1));
    assert!(!s.cancel(1));
    assert!(!s.is_active(1));
    assert_eq!(s.len(), 1);
}

#[test]
fn cancelled_move_is_dropped_and_never_reaches_its_destination() {
    let mut s = Sequencer::new();
    s.start(1, Then::new(Move { steps_left: 3 }, Stand));
    let mut field = Field::default();
    s.update(1, &mut field);
    assert_eq!(field.position, 1);
    assert!(s.cancel(1));
    s.update(2, &mut field);
    assert_eq!(s.len(), 0);
    s.update(3, &mut field);
    s.update(4, &mut field);
    assert_eq!(field.position, 1);
    assert!(!field.reached);
    assert_eq!(field.stand_updates, Vec::<u64>::new());
}

#[test]
fn cleanup_drops_everything_without_driving_anything() {
    let mut s = Sequencer::new();
    s.start(1, Scripted::new(1, vec![NOW]));
    s.start(2, Scripted::new(2, vec![NOW]));
    let mut log = Log::new();
    s.cleanup();
    assert_eq!(s.len(), 0);
    s.update(1, &mut log);
    assert_eq!(log, Log::new());
}

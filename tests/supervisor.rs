use rey::console::Console;
use rey::cooldown::cooldown_allows;
use rey::supervisor::{Action, ControlLoop, Event, Phase};

fn batch(now: u64, paths: &[&str]) -> Event {
    Event::Batch { now, paths: paths.iter().map(|p| p.to_string()).collect() }
}

/// Drives a loop already watching through one accepted batch, answering
/// every rebuild command with `ok`, and returns the actions it asked for.
fn run_cycle(l: &mut ControlLoop, now: u64, paths: &[&str], done_at: u64) -> Vec<Action> {
    let mut actions = vec![];
    let mut a = l.step(Event::Flag { cancelled: false });
    actions.push(a);
    a = l.step(batch(now, paths));
    actions.push(a);
    while let Action::Build { .. } = a {
        a = l.step(Event::StepDone { ok: true });
        actions.push(a);
    }
    if a == Action::Kill {
        a = l.step(Event::Reaped);
        actions.push(a);
        a = l.step(Event::Spawned { now: done_at });
        actions.push(a);
    }
    actions
}

#[test]
fn cooldown_gate() {
    assert!(cooldown_allows(5, None, 1000));
    assert!(cooldown_allows(2000, Some(1000), 1000));
    assert!(!cooldown_allows(1999, Some(1000), 1000));
    assert!(!cooldown_allows(500, Some(1000), 1000));
    assert!(cooldown_allows(500, Some(1000), 0));
}

#[test]
fn start_spawns_once_and_rebuilds_nothing() {
    let mut l = ControlLoop::new(1000, 4);
    let mut all = vec![l.pending()];
    all.push(l.step(Event::Spawned { now: 0 }));
    for _ in 0..10 {
        all.push(l.step(Event::Flag { cancelled: false }));
        all.push(l.step(Event::Timeout));
    }
    assert_eq!(all.iter().filter(|a| **a == Action::Spawn).count(), 1);
    assert_eq!(all.iter().filter(|a| matches!(a, Action::Build { .. })).count(), 0);
    assert!(l.child);
    assert_eq!(l.last_restart, None);
}

#[test]
fn three_rapid_edits_give_one_cycle_then_cancel_stops() {
    let steps = Console::compile_steps(&["ts", "scss", "rs"]).len();
    let mut l = ControlLoop::new(1000, steps);
    let mut all = vec![l.pending()];
    all.push(l.step(Event::Spawned { now: 0 }));
    // The debouncer merges three saves of one file into one batch.
    all.extend(run_cycle(&mut l, 2000, &["src/a.rs", "src/a.rs", "src/a.rs"], 2600));
    let spawns = all.iter().filter(|a| **a == Action::Spawn).count();
    let builds = all.iter().filter(|a| matches!(a, Action::Build { step: 0 })).count();
    let kills = all.iter().filter(|a| **a == Action::Kill).count();
    assert_eq!(spawns, 2);
    assert_eq!(builds, 1);
    assert_eq!(kills, 1);
    assert_eq!(l.last_restart, Some(2600));
    assert!(l.child);
    assert_eq!(l.step(Event::Flag { cancelled: true }), Action::Kill);
    assert_eq!(l.phase, Phase::ShuttingDown);
    assert_eq!(l.step(Event::Reaped), Action::Exit);
    assert!(!l.child);
    assert!(l.is_done());
}

#[test]
fn second_batch_inside_cooldown_is_dropped() {
    let mut l = ControlLoop::new(1000, 0);
    l.step(Event::Spawned { now: 0 });
    let first = run_cycle(&mut l, 5000, &["src/a.rs"], 5000);
    assert!(first.contains(&Action::Kill));
    let second = run_cycle(&mut l, 5500, &["src/b.rs"], 5500);
    assert_eq!(second, vec![Action::Poll, Action::CheckCancel]);
    assert_eq!(l.last_restart, Some(5000));
    assert_eq!(l.phase, Phase::Idle);
}

#[test]
fn second_batch_after_cooldown_restarts_again() {
    let mut l = ControlLoop::new(1000, 0);
    l.step(Event::Spawned { now: 0 });
    run_cycle(&mut l, 5000, &["src/a.rs"], 5000);
    let second = run_cycle(&mut l, 6001, &["src/b.rs"], 6001);
    assert_eq!(second, vec![Action::Poll, Action::Kill, Action::Spawn, Action::CheckCancel]);
    assert_eq!(l.last_restart, Some(6001));
}

#[test]
fn first_change_is_never_held_by_cooldown() {
    let mut l = ControlLoop::new(1000, 0);
    l.step(Event::Spawned { now: 0 });
    let cycle = run_cycle(&mut l, 1, &["src/a.rs"], 2);
    assert!(cycle.contains(&Action::Kill));
}

#[test]
fn irrelevant_batch_is_discarded_without_cooldown() {
    let mut l = ControlLoop::new(1000, 2);
    l.step(Event::Spawned { now: 0 });
    let actions = run_cycle(&mut l, 10, &["front/app.css", "target/x.rs"], 10);
    assert_eq!(actions, vec![Action::Poll, Action::CheckCancel]);
    assert_eq!(l.last_restart, None);
}

#[test]
fn failed_build_step_short_circuits_but_still_restarts() {
    let mut l = ControlLoop::new(1000, 3);
    l.step(Event::Spawned { now: 0 });
    l.step(Event::Flag { cancelled: false });
    assert_eq!(l.step(batch(10, &["src/a.rs"])), Action::Build { step: 0 });
    assert_eq!(l.step(Event::StepDone { ok: false }), Action::Kill);
    assert!(!l.build_ok);
    assert_eq!(l.step(Event::Reaped), Action::Spawn);
    assert!(!l.child);
    assert_eq!(l.step(Event::Spawned { now: 20 }), Action::CheckCancel);
    assert!(l.child);
}

#[test]
fn build_steps_run_in_order() {
    let mut l = ControlLoop::new(0, 3);
    l.step(Event::Spawned { now: 0 });
    l.step(Event::Flag { cancelled: false });
    assert_eq!(l.step(batch(10, &["src/a.rs"])), Action::Build { step: 0 });
    assert_eq!(l.step(Event::StepDone { ok: true }), Action::Build { step: 1 });
    assert_eq!(l.step(Event::StepDone { ok: true }), Action::Build { step: 2 });
    assert_eq!(l.step(Event::StepDone { ok: true }), Action::Kill);
    assert!(l.build_ok);
}

#[test]
fn restart_leaves_exactly_one_child() {
    let mut l = ControlLoop::new(0, 0);
    let mut live = 0i32;
    let mut a = l.pending();
    let mut events = vec![
        Event::Spawned { now: 9 },
        Event::Reaped,
        batch(8, &["src/a.rs"]),
        Event::Flag { cancelled: false },
        Event::Spawned { now: 1 },
    ];
    while let Some(e) = events.pop() {
        match a {
            Action::Spawn => {
                assert_eq!(live, 0);
                live += 1;
            }
            Action::Kill => {
                assert_eq!(live, 1);
                live -= 1;
            }
            _ => {}
        }
        a = l.step(e);
    }
    assert_eq!(a, Action::CheckCancel);
    assert_eq!(live, 1);
    assert!(l.child);
}

#[test]
fn source_errors_and_disconnect() {
    let mut l = ControlLoop::new(0, 0);
    l.step(Event::Spawned { now: 0 });
    l.step(Event::Flag { cancelled: false });
    assert_eq!(l.step(Event::SourceError), Action::CheckCancel);
    l.step(Event::Flag { cancelled: false });
    assert_eq!(l.step(Event::Disconnected), Action::Kill);
    assert_eq!(l.step(Event::Reaped), Action::Exit);
    assert_eq!(l.phase, Phase::Stopped);
}

#[test]
fn spawn_failure_aborts() {
    let mut l = ControlLoop::new(0, 0);
    assert_eq!(l.step(Event::SpawnFailed), Action::Abort);
    assert_eq!(l.phase, Phase::Failed);
    assert!(l.is_done());
}

#[test]
fn unexpected_event_repeats_pending_action() {
    let mut l = ControlLoop::new(0, 0);
    assert_eq!(l.step(Event::Reaped), Action::Spawn);
    assert_eq!(l.phase, Phase::Starting);
    l.step(Event::Spawned { now: 0 });
    assert_eq!(l.step(Event::Timeout), Action::CheckCancel);
}

#[test]
fn rapid_batches_of_one_file_give_one_cycle() {
    let mut l = ControlLoop::new(1000, 0);
    l.step(Event::Spawned { now: 0 });
    let mut kills = 0;
    for (i, t) in [5000u64, 5200, 5400].iter().enumerate() {
        let actions = run_cycle(&mut l, *t, &["src/a.rs"], *t);
        kills += actions.iter().filter(|a| **a == Action::Kill).count();
        if i > 0 {
            assert_eq!(actions, vec![Action::Poll, Action::CheckCancel]);
        }
    }
    assert_eq!(kills, 1);
}

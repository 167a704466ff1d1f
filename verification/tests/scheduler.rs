use path_tracer::{Action, Scheduler};

/// Drives a scheduler to completion and records every action it decides.
fn run_schedule(n_chunks: usize, max_threads: usize) -> Vec<Action> {
    let mut sched = Scheduler::new(n_chunks, max_threads);
    let mut actions = Vec::new();
    loop {
        let a = sched.next_action();
        actions.push(a);
        match a {
            Action::Launch(_) => sched.record_launch(),
            Action::Join(_) => sched.record_join(),
            Action::Finished => return actions,
        }
    }
}

#[test]
fn scheduler_fifo_cap_two() {
    let actions = run_schedule(5, 2);
    assert_eq!(
        actions,
        vec![
            Action::Launch(0),
            Action::Launch(1),
            Action::Join(0),
            Action::Launch(2),
            Action::Join(1),
            Action::Launch(3),
            Action::Join(2),
            Action::Launch(4),
            Action::Join(3),
            Action::Join(4),
            Action::Finished,
        ]
    );
}

#[test]
fn scheduler_cap_one_alternates() {
    let actions = run_schedule(3, 1);
    assert_eq!(
        actions,
        vec![
            Action::Launch(0),
            Action::Join(0),
            Action::Launch(1),
            Action::Join(1),
            Action::Launch(2),
            Action::Join(2),
            Action::Finished,
        ]
    );
}

#[test]
fn scheduler_wide_pool_never_blocks_early() {
    let actions = run_schedule(2, 16);
    assert_eq!(
        actions,
        vec![
            Action::Launch(0),
            Action::Launch(1),
            Action::Join(0),
            Action::Join(1),
            Action::Finished,
        ]
    );
}

#[test]
fn scheduler_no_chunks_finishes_at_once() {
    let actions = run_schedule(0, 4);
    assert_eq!(actions, vec![Action::Finished]);
}

#[test]
fn scheduler_every_chunk_launched_and_joined_once() {
    let n = 100;
    let actions = run_schedule(n, 16);
    let mut launched = vec![0usize; n];
    let mut joined = vec![0usize; n];
    let mut in_flight = 0usize;
    let mut peak = 0usize;
    for a in &actions {
        match *a {
            Action::Launch(k) => {
                launched[k] += 1;
                in_flight += 1;
                peak = peak.max(in_flight);
            }
            Action::Join(k) => {
                assert!(launched[k] == 1, "joined a chunk that never launched");
                joined[k] += 1;
                in_flight -= 1;
            }
            Action::Finished => {}
        }
    }
    assert!(launched.iter().all(|&c| c == 1));
    assert!(joined.iter().all(|&c| c == 1));
    assert!(peak <= 16);
}

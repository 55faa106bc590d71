use identity_reset::process::{
    matching_processes, name_matches, terminate_step, ProcessInfo, TerminatorAction,
    TerminatorState, MAX_RETRIES, WAIT_TIME_SECONDS,
};

fn process(pid: u32, name: &str) -> ProcessInfo {
    ProcessInfo { pid, name: name.to_string(), path: format!("/opt/{}/{}", name, pid) }
}

struct Run {
    state: TerminatorState,
    last: TerminatorAction,
    polls: usize,
    waits: u64,
    terminated: Vec<u32>,
}

fn drive(name: &str, listings: Vec<Vec<ProcessInfo>>) -> Run {
    let mut state = TerminatorState::start();
    let mut run = Run { state, last: TerminatorAction::Finish, polls: 0, waits: 0, terminated: Vec::new() };
    for listing in listings {
        let (next, action) = terminate_step(state, name, &listing);
        state = next;
        run.polls += 1;
        match &action {
            TerminatorAction::Terminate(found) => run.terminated.extend(found.iter().map(|p| p.pid)),
            TerminatorAction::Wait { seconds, .. } => run.waits += seconds,
            TerminatorAction::Finish | TerminatorAction::Abort(_) => {}
        }
        run.last = action;
        if state.finished() {
            break;
        }
    }
    run.state = state;
    run
}

#[test]
fn constants_are_five_retries_and_one_second() {
    assert_eq!(MAX_RETRIES, 5);
    assert_eq!(WAIT_TIME_SECONDS, 1);
}

#[test]
fn name_matches_ignores_ascii_case() {
    assert!(name_matches("Cursor", "cursor"));
    assert!(name_matches("cursor", "CURSOR"));
    assert!(name_matches("Cursor", "Cursor"));
    assert!(name_matches("", ""));
}

#[test]
fn name_matches_asks_for_the_whole_name() {
    assert!(!name_matches("Cursor.exe", "Cursor"));
    assert!(!name_matches("Curso", "Cursor"));
    assert!(!name_matches("Cursor", ""));
    assert!(!name_matches("", "Cursor"));
    assert!(!name_matches("Cursar", "Cursor"));
}

#[test]
fn name_matches_folds_ascii_letters_only() {
    assert!(!name_matches("É", "é"));
    assert!(name_matches("cafÉ", "CAFÉ"));
    assert!(!name_matches("[", "{"));
    assert!(!name_matches("@", "`"));
}

#[test]
fn name_matches_agrees_with_the_standard_library() {
    let names = ["Cursor", "cursor", "CURSOR", "cursor-updater", "Kursor", "", "Cürsor", "CÜRSOR", "a", "A", "z", "Z", "[", "{"];
    for a in names {
        for b in names {
            assert_eq!(name_matches(a, b), a.eq_ignore_ascii_case(b), "{:?} {:?}", a, b);
        }
    }
}

#[test]
fn matching_processes_keeps_matches_in_order() {
    let listing = vec![
        process(1, "init"),
        process(20, "Cursor"),
        process(3, "cursor"),
        process(4, "cursor-helper"),
        process(5, "CURSOR"),
    ];
    let found = matching_processes(&listing, "Cursor");
    assert_eq!(found, vec![process(20, "Cursor"), process(3, "cursor"), process(5, "CURSOR")]);
}

#[test]
fn matching_processes_of_an_empty_listing_is_empty() {
    assert_eq!(matching_processes(&Vec::new(), "Cursor"), Vec::new());
    assert_eq!(matching_processes(&vec![process(1, "init")], "Cursor"), Vec::new());
}

#[test]
fn nothing_running_finishes_without_waiting() {
    let run = drive("Cursor", vec![vec![process(1, "init"), process(2, "bash")]]);
    assert_eq!(run.state, TerminatorState::Closed);
    assert_eq!(run.last, TerminatorAction::Finish);
    assert_eq!(run.waits, 0);
    assert_eq!(run.polls, 1);
    assert!(run.terminated.is_empty());
}

#[test]
fn first_listing_with_matches_asks_to_terminate_them() {
    let listing = vec![process(1, "init"), process(7, "cursor"), process(9, "Cursor")];
    let (state, action) = terminate_step(TerminatorState::start(), "Cursor", &listing);
    assert_eq!(state, TerminatorState::Polling { retries: 0 });
    assert_eq!(action, TerminatorAction::Terminate(vec![process(7, "cursor"), process(9, "Cursor")]));
}

#[test]
fn process_gone_at_the_first_poll_costs_no_wait() {
    let run = drive("Cursor", vec![vec![process(7, "Cursor")], vec![]]);
    assert_eq!(run.state, TerminatorState::Closed);
    assert_eq!(run.waits, 0);
    assert_eq!(run.terminated, vec![7]);
}

#[test]
fn process_gone_after_the_second_poll_costs_two_waits() {
    let alive = vec![process(7, "Cursor")];
    let run = drive(
        "Cursor",
        vec![alive.clone(), alive.clone(), alive.clone(), vec![], alive.clone(), alive.clone()],
    );
    assert_eq!(run.state, TerminatorState::Closed);
    assert_eq!(run.last, TerminatorAction::Finish);
    assert_eq!(run.waits, 2 * WAIT_TIME_SECONDS);
    assert_eq!(run.polls, 4);
}

#[test]
fn each_failed_poll_asks_for_one_second_and_counts_up() {
    let alive = vec![process(7, "Cursor")];
    let mut state = TerminatorState::Polling { retries: 0 };
    for attempt in 1..MAX_RETRIES {
        let (next, action) = terminate_step(state, "Cursor", &alive);
        assert_eq!(next, TerminatorState::Polling { retries: attempt });
        assert_eq!(action, TerminatorAction::Wait { attempt, seconds: 1 });
        state = next;
    }
}

#[test]
fn process_that_stays_makes_the_run_fail_after_five_polls() {
    let alive = vec![process(7, "Cursor"), process(8, "cursor")];
    let run = drive("cursor", vec![alive.clone(); 10]);
    assert_eq!(run.state, TerminatorState::Failed);
    assert_eq!(run.last, TerminatorAction::Abort(alive));
    assert_eq!(run.polls, 1 + MAX_RETRIES as usize);
    assert_eq!(run.waits, (MAX_RETRIES as u64 - 1) * WAIT_TIME_SECONDS);
}

#[test]
fn process_gone_at_the_last_poll_still_closes() {
    let alive = vec![process(7, "Cursor")];
    let mut listings = vec![alive.clone(); 5];
    listings.push(vec![]);
    let run = drive("Cursor", listings);
    assert_eq!(run.state, TerminatorState::Closed);
    assert_eq!(run.waits, 4);
}

#[test]
fn finished_runs_stay_finished() {
    let alive = vec![process(7, "Cursor")];
    let (state, action) = terminate_step(TerminatorState::Closed, "Cursor", &alive);
    assert_eq!(state, TerminatorState::Closed);
    assert_eq!(action, TerminatorAction::Finish);
    let (state, action) = terminate_step(TerminatorState::Failed, "Cursor", &alive);
    assert_eq!(state, TerminatorState::Failed);
    assert_eq!(action, TerminatorAction::Abort(alive));
    assert!(TerminatorState::Closed.finished());
    assert!(TerminatorState::Failed.finished());
    assert!(!TerminatorState::Scanning.finished());
    assert!(!TerminatorState::Polling { retries: 3 }.finished());
}

#[test]
fn polling_state_beyond_the_limit_fails_at_once() {
    let alive = vec![process(7, "Cursor")];
    let (state, _) = terminate_step(TerminatorState::Polling { retries: u32::MAX }, "Cursor", &alive);
    assert_eq!(state, TerminatorState::Failed);
    let (state, _) = terminate_step(TerminatorState::Polling { retries: 4 }, "Cursor", &alive);
    assert_eq!(state, TerminatorState::Failed);
}

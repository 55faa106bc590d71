use identity_reset::backup::Timestamp;
use identity_reset::store::{
    rotate_request, rotate_step, RotationPlan, StoreEvent, StoreOutcome, StoreRequest, StoreState,
};

fn plan() -> RotationPlan {
    RotationPlan::new(
        "11111111-2222-4333-8444-555555555555".to_string(),
        "MachineGuid_20240131_235959.reg".to_string(),
    )
}

fn value(text: &str) -> StoreEvent {
    StoreEvent::Value(text.to_string())
}

/// A store whose answers are chosen by the test.
struct FakeStore {
    value: Option<String>,
    opens: bool,
    writes: bool,
    exports: bool,
    imports: bool,
    backup_dir: bool,
    forced_read_back: Option<String>,
    backup_exists: bool,
    requests: Vec<StoreRequest>,
}

impl FakeStore {
    fn holding(value: &str) -> FakeStore {
        FakeStore {
            value: Some(value.to_string()),
            opens: true,
            writes: true,
            exports: true,
            imports: true,
            backup_dir: true,
            forced_read_back: None,
            backup_exists: false,
            requests: Vec::new(),
        }
    }

    fn answer(&mut self, request: &StoreRequest) -> StoreEvent {
        let done = |ok: bool| if ok { StoreEvent::Succeeded } else { StoreEvent::Failed };
        match request {
            StoreRequest::Open => done(self.opens),
            StoreRequest::Read => match &self.value {
                Some(v) => StoreEvent::Value(v.clone()),
                None => StoreEvent::Absent,
            },
            StoreRequest::PrepareBackupDir => done(self.backup_dir),
            StoreRequest::Export(_) => {
                self.backup_exists = self.exports;
                done(self.exports)
            }
            StoreRequest::Write(v) => {
                if self.writes {
                    self.value = Some(v.clone());
                }
                done(self.writes)
            }
            StoreRequest::ReadBack => match (&self.forced_read_back, &self.value) {
                (Some(v), _) => StoreEvent::Value(v.clone()),
                (None, Some(v)) => StoreEvent::Value(v.clone()),
                (None, None) => StoreEvent::Absent,
            },
            StoreRequest::ProbeBackup(_) => {
                if self.backup_exists {
                    StoreEvent::Succeeded
                } else {
                    StoreEvent::Absent
                }
            }
            StoreRequest::Import(_) => done(self.imports),
            StoreRequest::Finish(_) => panic!("nothing to answer"),
        }
    }
}

fn rotate(store: &mut FakeStore, plan: &RotationPlan) -> StoreOutcome {
    let mut state = StoreState::start();
    loop {
        let request = rotate_request(state, plan);
        if let StoreRequest::Finish(outcome) = request {
            assert!(state.finished());
            return outcome;
        }
        let event = store.answer(&request);
        store.requests.push(request);
        state = rotate_step(state, event, plan);
    }
}

#[test]
fn rotation_writes_the_new_value_and_verifies_it() {
    let mut store = FakeStore::holding("old-value");
    let plan = plan();
    let outcome = rotate(&mut store, &plan);
    assert_eq!(outcome, StoreOutcome::Rotated);
    assert!(outcome.succeeded());
    assert_eq!(store.value.as_deref(), Some("11111111-2222-4333-8444-555555555555"));
    assert_eq!(
        store.requests,
        vec![
            StoreRequest::Open,
            StoreRequest::Read,
            StoreRequest::PrepareBackupDir,
            StoreRequest::Export("MachineGuid_20240131_235959.reg".to_string()),
            StoreRequest::Write("11111111-2222-4333-8444-555555555555".to_string()),
            StoreRequest::ReadBack,
        ]
    );
}

#[test]
fn rotation_fails_when_the_read_back_differs() {
    let mut store = FakeStore::holding("old-value");
    store.forced_read_back = Some("11111111-2222-4333-8444-555555555556".to_string());
    let outcome = rotate(&mut store, &plan());
    assert_eq!(outcome, StoreOutcome::VerifyMismatch);
    assert!(!outcome.succeeded());
    assert_eq!(store.requests.last(), Some(&StoreRequest::ReadBack));
    assert!(!store.requests.iter().any(|r| matches!(r, StoreRequest::Import(_))));
}

#[test]
fn rotation_fails_when_the_read_back_differs_in_case_only() {
    let state = rotate_step(StoreState::Verifying, value("11111111-2222-4333-8444-55555555555A"), &RotationPlan::new("11111111-2222-4333-8444-55555555555a".to_string(), "b".to_string()));
    assert_eq!(state, StoreState::Done(StoreOutcome::VerifyMismatch));
}

#[test]
fn rotation_fails_when_the_value_cannot_be_read_back() {
    let plan = plan();
    assert_eq!(rotate_step(StoreState::Verifying, StoreEvent::Failed, &plan), StoreState::Done(StoreOutcome::VerifyUnreadable));
    assert_eq!(rotate_step(StoreState::Verifying, StoreEvent::Absent, &plan), StoreState::Done(StoreOutcome::VerifyUnreadable));
    assert_eq!(rotate_step(StoreState::Verifying, value(""), &plan), StoreState::Done(StoreOutcome::VerifyMismatch));
}

#[test]
fn store_that_does_not_open_is_left_alone() {
    let mut store = FakeStore::holding("old-value");
    store.opens = false;
    assert_eq!(rotate(&mut store, &plan()), StoreOutcome::OpenFailed);
    assert_eq!(store.requests, vec![StoreRequest::Open]);
    assert_eq!(store.value.as_deref(), Some("old-value"));
}

#[test]
fn missing_value_is_tolerated() {
    let mut store = FakeStore::holding("x");
    store.value = None;
    assert_eq!(rotate(&mut store, &plan()), StoreOutcome::Rotated);
    let plan = plan();
    assert_eq!(rotate_step(StoreState::Reading, StoreEvent::Absent, &plan), StoreState::PreparingBackup { had_value: false });
    assert_eq!(rotate_step(StoreState::Reading, StoreEvent::Failed, &plan), StoreState::PreparingBackup { had_value: false });
    assert_eq!(rotate_step(StoreState::Reading, value(""), &plan), StoreState::PreparingBackup { had_value: false });
    assert_eq!(rotate_step(StoreState::Reading, value("v"), &plan), StoreState::PreparingBackup { had_value: true });
}

#[test]
fn failed_backup_steps_do_not_stop_the_rotation() {
    let mut store = FakeStore::holding("old-value");
    store.backup_dir = false;
    store.exports = false;
    assert_eq!(rotate(&mut store, &plan()), StoreOutcome::Rotated);
    assert_eq!(store.requests.len(), 6);
}

#[test]
fn failed_write_imports_the_backup() {
    let mut store = FakeStore::holding("old-value");
    store.writes = false;
    let outcome = rotate(&mut store, &plan());
    assert_eq!(outcome, StoreOutcome::WriteFailedRestored);
    assert!(!outcome.succeeded());
    assert_eq!(
        store.requests[4..],
        [
            StoreRequest::Write("11111111-2222-4333-8444-555555555555".to_string()),
            StoreRequest::ProbeBackup("MachineGuid_20240131_235959.reg".to_string()),
            StoreRequest::Import("MachineGuid_20240131_235959.reg".to_string()),
        ]
    );
}

#[test]
fn failed_write_and_failed_import_is_reported() {
    let mut store = FakeStore::holding("old-value");
    store.writes = false;
    store.imports = false;
    assert_eq!(rotate(&mut store, &plan()), StoreOutcome::WriteFailedNotRestored);
}

#[test]
fn failed_write_without_a_backup_tries_no_import() {
    let mut store = FakeStore::holding("old-value");
    store.writes = false;
    store.exports = false;
    assert_eq!(rotate(&mut store, &plan()), StoreOutcome::WriteFailed);
    assert!(matches!(store.requests.last(), Some(StoreRequest::ProbeBackup(_))));
}

#[test]
fn failed_write_without_an_old_value_tries_no_import() {
    for old in [None, Some(String::new())] {
        let mut store = FakeStore::holding("x");
        store.value = old;
        store.writes = false;
        assert_eq!(rotate(&mut store, &plan()), StoreOutcome::WriteFailed);
        assert!(matches!(store.requests.last(), Some(StoreRequest::Write(_))));
    }
}

#[test]
fn store_events_that_answer_nothing_change_nothing() {
    let plan = plan();
    let states = [
        (StoreState::Opening, value("v")),
        (StoreState::Opening, StoreEvent::Absent),
        (StoreState::Reading, StoreEvent::Succeeded),
        (StoreState::PreparingBackup { had_value: true }, value("v")),
        (StoreState::Exporting { had_value: false }, StoreEvent::Absent),
        (StoreState::Writing { had_value: true }, value("v")),
        (StoreState::Writing { had_value: true }, StoreEvent::Absent),
        (StoreState::Verifying, StoreEvent::Succeeded),
        (StoreState::CheckingBackup, value("v")),
        (StoreState::Restoring, StoreEvent::Absent),
        (StoreState::Done(StoreOutcome::Rotated), StoreEvent::Failed),
        (StoreState::Done(StoreOutcome::VerifyMismatch), value("11111111-2222-4333-8444-555555555555")),
    ];
    for (state, event) in states {
        assert_eq!(rotate_step(state, event, &plan), state);
    }
}

#[test]
fn fresh_plan_has_a_new_identifier_and_a_stamped_backup_name() {
    let at = Timestamp::new(2024, 1, 31, 23, 59, 59).unwrap();
    let first = RotationPlan::fresh("MachineGuid", &at, "reg");
    let second = RotationPlan::fresh("MachineGuid", &at, "reg");
    assert_eq!(first.backup_file, "MachineGuid_20240131_235959.reg");
    assert_eq!(uuid::Uuid::parse_str(&first.new_value).unwrap().get_version_num(), 4);
    assert_eq!(first.new_value.len(), 36);
    assert_ne!(first.new_value, second.new_value);
}

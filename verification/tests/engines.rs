use identity_reset::engine::{
    engine_step, process_name, Stage, StageResult, EXIT_FAILURE, EXIT_SUCCESS,
    PROCESS_NAME_COUNT,
};

fn run(results: &[StageResult]) -> Vec<Stage> {
    let mut stage = Stage::start();
    let mut seen = vec![stage];
    for result in results {
        stage = engine_step(stage, *result);
        seen.push(stage);
    }
    seen
}

#[test]
fn exit_codes_are_zero_and_one() {
    assert_eq!(EXIT_SUCCESS, 0);
    assert_eq!(EXIT_FAILURE, 1);
    assert_eq!(PROCESS_NAME_COUNT, 2);
}

#[test]
fn run_goes_through_its_stages_in_order() {
    let seen = run(&[StageResult::Succeeded; 11]);
    assert_eq!(
        seen,
        vec![
            Stage::Privilege,
            Stage::Version,
            Stage::Processes { stopped: 0 },
            Stage::Processes { stopped: 1 },
            Stage::Paths,
            Stage::BackupDir,
            Stage::ConfigBackup,
            Stage::Identity,
            Stage::Store,
            Stage::Config,
            Stage::Summary,
            Stage::Exit { code: 0 },
        ]
    );
}

#[test]
fn fatal_stages_end_the_run_with_code_one() {
    let fatal = [
        Stage::Privilege,
        Stage::Processes { stopped: 0 },
        Stage::Processes { stopped: 1 },
        Stage::Paths,
        Stage::BackupDir,
        Stage::Config,
    ];
    for stage in fatal {
        assert_eq!(engine_step(stage, StageResult::Failed), Stage::Exit { code: 1 });
        assert_eq!(engine_step(stage, StageResult::Skipped), Stage::Exit { code: 1 });
    }
}

#[test]
fn other_failures_let_the_run_go_on() {
    for result in [StageResult::Failed, StageResult::Skipped, StageResult::Succeeded] {
        assert_eq!(engine_step(Stage::Version, result), Stage::Processes { stopped: 0 });
        assert_eq!(engine_step(Stage::ConfigBackup, result), Stage::Identity);
        assert_eq!(engine_step(Stage::Identity, result), Stage::Store);
        assert_eq!(engine_step(Stage::Store, result), Stage::Config);
        assert_eq!(engine_step(Stage::Summary, result), Stage::Exit { code: 0 });
    }
}

#[test]
fn exit_is_final() {
    for code in [0, 1, 7] {
        for result in [StageResult::Failed, StageResult::Skipped, StageResult::Succeeded] {
            assert_eq!(engine_step(Stage::Exit { code }, result), Stage::Exit { code });
        }
    }
}

#[test]
fn failed_rotation_still_leaves_with_success() {
    let mut results = [StageResult::Succeeded; 11];
    results[1] = StageResult::Failed;
    results[6] = StageResult::Failed;
    results[8] = StageResult::Failed;
    assert_eq!(run(&results).last(), Some(&Stage::Exit { code: 0 }));
}

#[test]
fn failed_update_leaves_with_failure() {
    let mut results = [StageResult::Succeeded; 11];
    results[9] = StageResult::Failed;
    let seen = run(&results);
    assert_eq!(seen[10], Stage::Exit { code: 1 });
    assert_eq!(seen[11], Stage::Exit { code: 1 });
}

#[test]
fn nothing_is_changed_when_a_program_keeps_running() {
    let mut results = [StageResult::Succeeded; 11];
    results[3] = StageResult::Failed;
    let seen = run(&results);
    assert!(!seen.contains(&Stage::Store));
    assert!(!seen.contains(&Stage::Config));
    assert_eq!(seen.last(), Some(&Stage::Exit { code: 1 }));
}

#[test]
fn process_stage_beyond_the_names_moves_on() {
    assert_eq!(engine_step(Stage::Processes { stopped: 200 }, StageResult::Succeeded), Stage::Paths);
    assert_eq!(engine_step(Stage::Processes { stopped: 255 }, StageResult::Succeeded), Stage::Paths);
}

#[test]
fn process_names_are_the_two_spellings() {
    assert_eq!(process_name(0), Some("Cursor"));
    assert_eq!(process_name(1), Some("cursor"));
    assert_eq!(process_name(2), None);
    assert_eq!(process_name(255), None);
}

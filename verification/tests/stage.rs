use wasi_sandbox::stage::{Failure, Stage};

const RUNNING: [Stage; 5] = [
    Stage::Created,
    Stage::MemoryLoaded,
    Stage::Instantiated,
    Stage::MemorySet,
    Stage::Started,
];

const FAILURES: [Failure; 4] = [
    Failure::Deserialize,
    Failure::Instantiation,
    Failure::MemoryExport,
    Failure::Trap,
];

#[test]
fn successful_steps_walk_the_stages_in_order() {
    let mut stage = Stage::Created;
    for next in [
        Stage::MemoryLoaded,
        Stage::Instantiated,
        Stage::MemorySet,
        Stage::Started,
        Stage::OutputCaptured,
    ] {
        assert!(!stage.is_terminal());
        stage = stage.after(true);
        assert_eq!(stage, next);
    }
    assert!(stage.is_terminal());
}

#[test]
fn failed_step_ends_the_session() {
    for (stage, failure) in RUNNING.iter().zip(FAILURES.iter()) {
        let failed = stage.after(false);
        assert_eq!(failed, Stage::Failed(*failure));
        assert!(failed.is_terminal());
    }
}

#[test]
fn reading_the_output_back_cannot_fail() {
    assert_eq!(Stage::Started.after(true), Stage::OutputCaptured);
    assert_eq!(Stage::Started.after(false), Stage::OutputCaptured);
}

#[test]
fn terminal_stage_stays() {
    for outcome in [true, false] {
        assert_eq!(Stage::OutputCaptured.after(outcome), Stage::OutputCaptured);
        for failure in FAILURES {
            assert_eq!(Stage::Failed(failure).after(outcome), Stage::Failed(failure));
        }
    }
}

#[test]
fn first_failure_is_final() {
    let mut stage = Stage::Created;
    for outcome in [true, true, false, true, true, true] {
        stage = stage.after(outcome);
    }
    assert_eq!(stage, Stage::Failed(Failure::MemoryExport));
}

#[test]
fn only_terminal_stages_are_terminal() {
    for stage in RUNNING {
        assert!(!stage.is_terminal());
    }
    assert!(Stage::OutputCaptured.is_terminal());
    assert!(Stage::Failed(Failure::Trap).is_terminal());
}

use config_store::{SaveError, SavePlan, SaveState, SaveStep};

#[test]
fn plan_puts_the_temporary_file_beside_the_backing_file() {
    let plan = SavePlan::new("/etc/box/conf.json", "{}".to_string());
    assert_eq!(plan.file_name, "/etc/box/conf.json");
    assert_eq!(plan.temp_name, "/etc/box/conf.json.updated");
    assert_eq!(plan.contents, "{}");
    let nameless = SavePlan::new("", String::new());
    assert_eq!(nameless.temp_name, ".updated");
}

#[test]
fn save_runs_write_copy_remove() {
    let state = SaveState::start();
    assert_eq!(state, SaveState::Run(SaveStep::WriteTemp));
    let state = state.advance(true);
    assert_eq!(state, SaveState::Run(SaveStep::CopyToTarget));
    let state = state.advance(true);
    assert_eq!(state, SaveState::Run(SaveStep::RemoveTemp));
    let state = state.advance(true);
    assert_eq!(state, SaveState::Saved);
}

#[test]
fn failed_write_ends_the_save() {
    let state = SaveState::start().advance(false);
    assert_eq!(state, SaveState::Failed(SaveError::WriteTemp));
}

#[test]
fn failed_copy_ends_the_save() {
    let state = SaveState::start().advance(true).advance(false);
    assert_eq!(state, SaveState::Failed(SaveError::CopyToTarget));
}

#[test]
fn failed_remove_ends_the_save() {
    let state = SaveState::start().advance(true).advance(true).advance(false);
    assert_eq!(state, SaveState::Failed(SaveError::RemoveTemp));
}

#[test]
fn a_finished_save_stays_finished() {
    for outcome in [true, false] {
        assert_eq!(SaveState::Saved.advance(outcome), SaveState::Saved);
        for error in
            [SaveError::Render, SaveError::WriteTemp, SaveError::CopyToTarget, SaveError::RemoveTemp]
        {
            assert_eq!(SaveState::Failed(error).advance(outcome), SaveState::Failed(error));
        }
    }
}

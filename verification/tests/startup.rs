use focus_pause::outcome::{judge, Outcome};
use focus_pause::startup::{on_run_result, startup_plan, Plugin, RUN_FAILED};

#[test]
fn the_command_table_is_empty_at_startup() {
    let plan = startup_plan();
    assert_eq!(plan.commands.len(), 0);
    assert!(plan.commands.is_empty());
}

#[test]
fn the_updater_is_attached_before_process_control() {
    let plan = startup_plan();
    assert_eq!(plan.plugins, vec![Plugin::Updater, Plugin::Process]);
}

#[test]
fn every_plan_is_the_same() {
    assert_eq!(startup_plan(), startup_plan());
}

#[test]
fn a_run_that_ended_well_goes_on() {
    assert_eq!(on_run_result(Ok(())), Outcome::Continue);
}

#[test]
fn a_failed_startup_aborts_with_the_fixed_diagnostic() {
    let outcome = on_run_result(Err(String::from("no window system")));
    assert_eq!(
        outcome,
        Outcome::Abort(String::from("error while running tauri application: no window system"))
    );
}

#[test]
fn a_failed_startup_has_no_third_outcome() {
    for cause in ["", "x", "asset not found: index.html"] {
        match on_run_result(Err(String::from(cause))) {
            Outcome::Continue => panic!("a failure went on"),
            Outcome::Abort(diagnostic) => {
                assert_eq!(diagnostic, format!("{}{}", RUN_FAILED, cause));
            }
        }
    }
}

#[test]
fn judge_puts_the_context_before_the_cause() {
    assert_eq!(judge("saving: ", Ok(())), Outcome::Continue);
    assert_eq!(
        judge("saving: ", Err(String::from("disk full"))),
        Outcome::Abort(String::from("saving: disk full"))
    );
    assert_eq!(judge("", Err(String::from("disk full"))), Outcome::Abort(String::from("disk full")));
    assert_eq!(judge("", Err(String::new())), Outcome::Abort(String::new()));
}

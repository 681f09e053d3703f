use app_bootstrap::BootError;
use app_bootstrap::BuildMode;
use app_bootstrap::Directive;
use app_bootstrap::Severity;
use app_bootstrap::bootstrap_run;
use app_bootstrap::logging_min_severity;
use app_bootstrap::setup_registers_logging;
use app_bootstrap::startup_plan;

#[test]
fn release_launch_registers_data_access_and_runs() {
    let report = bootstrap_run(BuildMode::Release, Ok(()), Ok(()));
    assert_eq!(
        report.calls,
        vec![Directive::RegisterDataAccess, Directive::EnterRunLoop]
    );
    assert_eq!(report.outcome, Ok(()));
}

#[test]
fn release_launch_never_consults_logging_registration() {
    let report = bootstrap_run(
        BuildMode::Release,
        Err(String::from("duplicate registration")),
        Ok(()),
    );
    assert_eq!(
        report.calls,
        vec![Directive::RegisterDataAccess, Directive::EnterRunLoop]
    );
    assert_eq!(report.outcome, Ok(()));
}

#[test]
fn debug_launch_registers_logging_then_runs() {
    let report = bootstrap_run(BuildMode::Debug, Ok(()), Ok(()));
    assert_eq!(
        report.calls,
        vec![
            Directive::RegisterDataAccess,
            Directive::RegisterLogging {
                min_severity: Severity::Informational
            },
            Directive::EnterRunLoop,
        ]
    );
    assert_eq!(report.outcome, Ok(()));
}

#[test]
fn debug_launch_with_failed_logging_never_enters_run_loop() {
    let report = bootstrap_run(BuildMode::Debug, Err(String::from("E")), Ok(()));
    assert_eq!(
        report.calls,
        vec![
            Directive::RegisterDataAccess,
            Directive::RegisterLogging {
                min_severity: Severity::Informational
            },
        ]
    );
    assert_eq!(
        report.outcome,
        Err(BootError::Setup {
            message: String::from("E")
        })
    );
}

#[test]
fn failed_run_loop_is_a_fatal_run_error() {
    let report = bootstrap_run(
        BuildMode::Release,
        Ok(()),
        Err(String::from("event loop could not start")),
    );
    assert_eq!(
        report.outcome,
        Err(BootError::Run {
            message: String::from("event loop could not start")
        })
    );

    let report = bootstrap_run(
        BuildMode::Debug,
        Ok(()),
        Err(String::from("event loop could not start")),
    );
    assert_eq!(report.calls.len(), 3);
    assert_eq!(
        report.outcome,
        Err(BootError::Run {
            message: String::from("event loop could not start")
        })
    );
}

#[test]
fn startup_plan_is_fixed_per_mode() {
    assert_eq!(
        startup_plan(BuildMode::Release),
        vec![Directive::RegisterDataAccess, Directive::EnterRunLoop]
    );
    assert_eq!(
        startup_plan(BuildMode::Debug),
        vec![
            Directive::RegisterDataAccess,
            Directive::RegisterLogging {
                min_severity: Severity::Informational
            },
            Directive::EnterRunLoop,
        ]
    );
}

#[test]
fn setup_callback_registers_logging_only_in_debug() {
    assert!(setup_registers_logging(BuildMode::Debug));
    assert!(!setup_registers_logging(BuildMode::Release));
    assert_eq!(logging_min_severity(), Severity::Informational);
}

#[test]
fn informational_minimum_captures_informational_and_above() {
    let min = Severity::Informational;
    assert!(!min.captures(&Severity::Trace));
    assert!(!min.captures(&Severity::Debug));
    assert!(min.captures(&Severity::Informational));
    assert!(min.captures(&Severity::Warning));
    assert!(min.captures(&Severity::Error));
}

#[test]
fn fatal_diagnostic_is_fixed() {
    assert_eq!(
        app_bootstrap::fatal_diagnostic(),
        "error while running application"
    );
}

#[test]
fn boot_error_exposes_the_host_message() {
    let setup = BootError::Setup {
        message: String::from("already registered"),
    };
    assert_eq!(setup.message(), "already registered");
    let run = BootError::Run {
        message: String::from("no display"),
    };
    assert_eq!(run.message(), "no display");
}

use nvidia_init::query_cc_mode::CcModeError;
use nvidia_init::supervisor::boot_validation;
use nvidia_init::supervisor::revalidate_decision;
use nvidia_init::supervisor::supervisor_step;
use nvidia_init::supervisor::SupervisorError;
use nvidia_init::supervisor::SupervisorEvent;
use nvidia_init::supervisor::SupervisorState;

fn strings(values: &[&str]) -> Vec<String> {
    values.iter().map(|v| v.to_string()).collect()
}

#[test]
fn happy_path_transitions() {
    let s = SupervisorState::Bootstrap;
    let s = supervisor_step(s, SupervisorEvent::BootstrapSucceeded);
    assert_eq!(s, SupervisorState::Split);
    let parent = supervisor_step(s, SupervisorEvent::SplitParent);
    assert_eq!(parent, SupervisorState::ParentHandoff);
    let child = supervisor_step(s, SupervisorEvent::SplitChild);
    assert_eq!(child, SupervisorState::ChildSuperviseLoop);
    let child = supervisor_step(child, SupervisorEvent::RevalidationPassed);
    assert_eq!(child, SupervisorState::ChildSuperviseLoop);
}

#[test]
fn failures_are_fatal_and_fatal_is_terminal() {
    assert_eq!(
        supervisor_step(SupervisorState::Bootstrap, SupervisorEvent::BootstrapFailed),
        SupervisorState::Fatal
    );
    assert_eq!(
        supervisor_step(SupervisorState::Split, SupervisorEvent::SplitFailed),
        SupervisorState::Fatal
    );
    assert_eq!(
        supervisor_step(SupervisorState::ChildSuperviseLoop, SupervisorEvent::RevalidationFailed),
        SupervisorState::Fatal
    );
    assert_eq!(
        supervisor_step(SupervisorState::Fatal, SupervisorEvent::RevalidationPassed),
        SupervisorState::Fatal
    );
}

#[test]
fn parent_handoff_is_permanent() {
    assert_eq!(
        supervisor_step(SupervisorState::ParentHandoff, SupervisorEvent::RevalidationFailed),
        SupervisorState::ParentHandoff
    );
    assert_eq!(
        supervisor_step(SupervisorState::ParentHandoff, SupervisorEvent::BootstrapFailed),
        SupervisorState::ParentHandoff
    );
}

#[test]
fn boot_validation_skips_when_no_gpus() {
    let none: Vec<String> = Vec::new();
    let report = boot_validation(&none, &none, &none, None).unwrap();
    assert!(report.is_none());
}

#[test]
fn boot_validation_reports_but_does_not_enforce_the_gate() {
    let bdfs = strings(&["0000:01:00.0"]);
    let devids = strings(&["0x9999"]);
    let outputs = strings(&["CC mode is on"]);
    let allow = strings(&["0x2330"]);
    let report = boot_validation(&bdfs, &devids, &outputs, Some(&allow)).unwrap().unwrap();
    assert_eq!(report.cc_mode, "on");
    assert_eq!(report.supported, false);
}

#[test]
fn boot_validation_fails_on_inconsistency() {
    let bdfs = strings(&["0000:01:00.0", "0000:02:00.0"]);
    let devids = strings(&["0x2330", "0x2330"]);
    let outputs = strings(&["CC mode is on", "quiet"]);
    match boot_validation(&bdfs, &devids, &outputs, None) {
        Err(CcModeError::Inconsistent { bus_address, found, expected }) => {
            assert_eq!(bus_address, "0000:02:00.0");
            assert_eq!(found, "off");
            assert_eq!(expected, "on");
        }
        other => panic!("expected an inconsistency error, got {:?}", other),
    }
}

#[test]
fn revalidation_passes_supported_uniform_gpus() {
    let bdfs = strings(&["0000:01:00.0", "0000:02:00.0"]);
    let devids = strings(&["0x2330", "0x2331"]);
    let outputs = strings(&["CC mode is on", "CC mode is on"]);
    let allow = strings(&["0x2330", "0x2331"]);
    let mode = revalidate_decision(&bdfs, &devids, &outputs, Some(&allow)).unwrap();
    assert_eq!(mode, "on");
}

#[test]
fn revalidation_enforces_the_gate() {
    let bdfs = strings(&["0000:01:00.0"]);
    let devids = strings(&["0x9999"]);
    let outputs = strings(&["CC mode is off"]);
    let allow = strings(&["0x2330"]);
    match revalidate_decision(&bdfs, &devids, &outputs, Some(&allow)) {
        Err(SupervisorError::UnsupportedGpu) => {}
        other => panic!("expected the unsupported-GPU error, got {:?}", other),
    }
    match revalidate_decision(&bdfs, &devids, &outputs, None) {
        Err(SupervisorError::UnsupportedGpu) => {}
        other => panic!("expected the unsupported-GPU error, got {:?}", other),
    }
}

#[test]
fn revalidation_fails_on_cc_inconsistency_before_the_gate() {
    let bdfs = strings(&["0000:01:00.0", "0000:02:00.0"]);
    let devids = strings(&["0x2330", "0x2330"]);
    let outputs = strings(&["CC mode is off", "CC mode is on"]);
    let allow = strings(&["0x2330"]);
    match revalidate_decision(&bdfs, &devids, &outputs, Some(&allow)) {
        Err(SupervisorError::CcMode(CcModeError::Inconsistent { bus_address, found, expected })) => {
            assert_eq!(bus_address, "0000:02:00.0");
            assert_eq!(found, "on");
            assert_eq!(expected, "off");
        }
        other => panic!("expected an inconsistency error, got {:?}", other),
    }
}

#[test]
fn revalidation_with_no_gpus_is_fatal() {
    let none: Vec<String> = Vec::new();
    let allow = strings(&["0x2330"]);
    match revalidate_decision(&none, &none, &none, Some(&allow)) {
        Err(SupervisorError::CcMode(CcModeError::NoGpus)) => {}
        other => panic!("expected the no-GPUs error, got {:?}", other),
    }
}

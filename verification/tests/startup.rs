use jsexec::activation::node_modules_choice;
use jsexec::plexus_env::{cache_hit_message, client_bundle_args, hub_codegen_args, ir_progress_message, progress_event};
use jsexec::pool::worker::{worker_probe_step, WorkerError, WorkerProbe};
use jsexec::runner::{startup_begin, startup_step, ProbeAction, ProbeObservation, RunnerError};
use jsexec::types::JsExecEvent;

#[test]
fn startup_probe_decisions() {
    assert!(startup_begin(3).is_none());
    match startup_begin(0) {
        Some(JsExecEvent::Error { message, name, .. }) => {
            assert_eq!(message, "Workerd failed to start within timeout");
            assert_eq!(name, "SystemError");
        }
        other => panic!("unexpected: {:?}", other),
    }
    assert!(matches!(startup_step(1, 3, ProbeObservation::Healthy), ProbeAction::Ready));
    assert!(matches!(startup_step(1, 3, ProbeObservation::NotHealthy), ProbeAction::Retry { next: 2 }));
    match startup_step(3, 3, ProbeObservation::NotHealthy) {
        ProbeAction::Fail(JsExecEvent::Error { message, .. }) => {
            assert_eq!(message, "Workerd failed to start within timeout")
        }
        other => panic!("unexpected: {:?}", other),
    }
    match startup_step(
        2,
        3,
        ProbeObservation::Exited { name: "SyntaxError".to_string(), message: "bad".to_string() },
    ) {
        ProbeAction::Fail(JsExecEvent::Error { message, name, .. }) => {
            assert_eq!(name, "SyntaxError");
            assert_eq!(message, "bad");
        }
        other => panic!("unexpected: {:?}", other),
    }
    match startup_step(1, 3, ProbeObservation::StatusUnknown("io".to_string())) {
        ProbeAction::Fail(JsExecEvent::Error { message, .. }) => {
            assert_eq!(message, "Failed to check process status: io")
        }
        other => panic!("unexpected: {:?}", other),
    }
    assert_eq!(RunnerError::StartupTimeout.to_text(), "Workerd failed to start within timeout");
    assert_eq!(RunnerError::Spawn("x".to_string()).to_text(), "Failed to spawn workerd: x");
}

#[test]
fn worker_probe_decisions() {
    assert!(matches!(worker_probe_step(1, 30, true, false), WorkerProbe::Ready));
    assert!(matches!(worker_probe_step(1, 30, false, true), WorkerProbe::Fail(WorkerError::ProcessExited)));
    assert!(matches!(worker_probe_step(1, 30, false, false), WorkerProbe::Retry { next: 2 }));
    assert!(matches!(
        worker_probe_step(30, 30, false, false),
        WorkerProbe::Fail(WorkerError::HealthCheckFailed { attempts: 30 })
    ));
}

#[test]
fn node_modules_is_first_existing_candidate() {
    let candidates = vec![
        (Some("/a/node_modules".to_string()), false),
        (None, false),
        (Some("/c/node_modules".to_string()), true),
        (Some("/d/node_modules".to_string()), true),
    ];
    assert_eq!(node_modules_choice(&candidates), "/c/node_modules");
    assert_eq!(node_modules_choice(&vec![(Some("/x".to_string()), false)]), "node_modules");
}

#[test]
fn plexus_messages() {
    match progress_event("bundling", "Bundling".to_string()) {
        JsExecEvent::PlexusEnvProgress { stage, message } => {
            assert_eq!(stage, "bundling");
            assert_eq!(message, "Bundling");
        }
        other => panic!("unexpected: {:?}", other),
    }
    assert_eq!(ir_progress_message("substrate", "localhost", 4444), "Generating IR for backend 'substrate' at localhost:4444");
    assert_eq!(cache_hit_message("substrate", "abc"), "Using cached bundle for substrate_abc");
    assert_eq!(hub_codegen_args("/out", "/out/ir.json")[3], "/out");
    assert_eq!(client_bundle_args("/g/index.ts")[4], "--external:ws");
}

use msc_agent::api::ApiError;
use msc_agent::bedrock_runtime::{
    BedrockEligibility, BedrockHost, BedrockPlatform, BedrockRuntimeError, EligibilityState,
    RuntimeBackend, accept_refreshed, admit_provision, backend_dto, distribution_platform,
    state_dto, unavailable_for_tests,
};
use msc_agent::capabilities::HostOs;
use msc_agent::health::BedrockBackend;
use msc_agent::lifecycle::{
    ActiveServerSelectionError, FirstStartFacts, FirstStartPhase, LifecycleError,
    LifecycleErrorKind, LifecycleRouteError, TerminationStep, active_server_selection_error_response,
    first_start_done_result, lifecycle_error_response, lifecycle_route_error_response,
    termination_step,
};

fn failure(kind: LifecycleErrorKind) -> LifecycleError {
    LifecycleError { kind, message: "msg".into() }
}

#[test]
fn lifecycle_failures_map_to_http_answers() {
    for (kind, status, code) in [
        (LifecycleErrorKind::NoActiveServer, 409, "conflict"),
        (LifecycleErrorKind::ServerNotRunning, 409, "conflict"),
        (LifecycleErrorKind::ServerNotFound, 404, "not_found"),
        (LifecycleErrorKind::AlreadyInState, 409, "conflict"),
        (LifecycleErrorKind::IllegalTransition, 409, "conflict"),
        (LifecycleErrorKind::WrongActiveServer, 409, "conflict"),
        (LifecycleErrorKind::Repository, 500, "internal_error"),
        (LifecycleErrorKind::Process, 500, "internal_error"),
    ] {
        let e = lifecycle_error_response(failure(kind));
        assert_eq!((e.status, e.code.as_str(), e.message.as_str()), (status, code, "msg"));
    }
    let answer = ApiError { status: 503, code: "busy".into(), message: "later".into() };
    assert_eq!(
        lifecycle_route_error_response(LifecycleRouteError::Operation { answer: answer.clone() }),
        answer
    );
    let unavailable = ApiError { status: 200, code: "capability_unavailable".into(), message: "no VM".into() };
    let e = lifecycle_route_error_response(LifecycleRouteError::BedrockRuntime {
        available: false,
        unavailable: unavailable.clone(),
        message: "ignored".into(),
    });
    assert_eq!((e.status, e.code.as_str(), e.message.as_str()), (409, "capability_unavailable", "no VM"));
    let e = lifecycle_route_error_response(LifecycleRouteError::BedrockRuntime {
        available: true,
        unavailable,
        message: "sidecar crashed".into(),
    });
    assert_eq!((e.status, e.code.as_str(), e.message.as_str()), (409, "bedrock_runtime_error", "sidecar crashed"));
    let e = lifecycle_route_error_response(LifecycleRouteError::UnusableJavaRuntime { message: "Java 8".into() });
    assert_eq!((e.status, e.code.as_str()), (409, "unusable_java_runtime"));
    let e = lifecycle_route_error_response(LifecycleRouteError::Lifecycle(failure(LifecycleErrorKind::ServerNotFound)));
    assert_eq!(e.status, 404);
    let e = active_server_selection_error_response(ActiveServerSelectionError::Reconciliation {
        reason: "bad level.dat".into(),
    });
    assert_eq!(e.code, "world_reconciliation_degraded");
    assert!(e.message.contains(": bad level.dat. Fix"));
    let e = active_server_selection_error_response(ActiveServerSelectionError::Lifecycle(failure(
        LifecycleErrorKind::Process,
    )));
    assert_eq!(e.status, 500);
}

fn facts(phase: FirstStartPhase, ready: bool, second: bool, cap: bool) -> FirstStartFacts {
    FirstStartFacts {
        server_id: "srv".into(),
        phase,
        server_ready: ready,
        needs_second_pass: second,
        safety_cap_reached: cap,
    }
}

fn pairs(v: &[(&str, &str)]) -> Vec<(String, String)> {
    v.iter().map(|(k, x)| (k.to_string(), x.to_string())).collect()
}

#[test]
fn process_termination_steps() {
    assert_eq!(
        termination_step(None, true),
        TerminationStep::Finish { success: true, message: "Bedrock server stopped.".into() }
    );
    assert_eq!(
        termination_step(None, false),
        TerminationStep::Finish { success: false, message: "Java process exited before readiness.".into() }
    );
    assert_eq!(
        termination_step(Some(facts(FirstStartPhase::WaitingForSetup, true, true, false)), true),
        TerminationStep::PassOneDone {
            progress: "Pass one is complete. Waiting for the first-start transport choices.".into(),
            message: "First-start pass one complete.".into(),
            result: pairs(&[
                ("firstStartNeedsPass2", "true"),
                ("firstStartPass1Complete", "true"),
                ("firstStartServerId", "srv"),
            ]),
        }
    );
    assert_eq!(
        termination_step(Some(facts(FirstStartPhase::PassTwo, false, false, true)), false),
        TerminationStep::FirstStartDone {
            server_id: "srv".into(),
            safety_cap: true,
            message: "First-start safety limit reached; server stopped.".into(),
        }
    );
    assert_eq!(
        termination_step(Some(facts(FirstStartPhase::Complete, true, false, false)), true),
        TerminationStep::FirstStartDone {
            server_id: "srv".into(),
            safety_cap: false,
            message: "First-start setup complete; server stopped.".into(),
        }
    );
    for f in [
        facts(FirstStartPhase::WaitingForSetup, false, true, true),
        facts(FirstStartPhase::PassTwo, false, false, false),
    ] {
        assert!(matches!(termination_step(Some(f), true), TerminationStep::Abandoned { .. }));
    }
    assert_eq!(
        first_start_done_result("srv".into(), false, true),
        pairs(&[
            ("firstStartComplete", "false"),
            ("firstStartSafetyCap", "true"),
            ("firstStartServerId", "srv"),
        ])
    );
}

fn eligibility(host: BedrockHost, backend: Option<RuntimeBackend>, state: EligibilityState) -> BedrockEligibility {
    BedrockEligibility { host, backend, state, reason_code: None, message: "detected".into() }
}

#[test]
fn bedrock_runtime_state_answers() {
    let e = eligibility(BedrockHost::Linux, Some(RuntimeBackend::Native), EligibilityState::Available);
    let dto = state_dto(e.clone(), false, "linux");
    assert_eq!(dto.state, "available");
    assert_eq!(dto.backend, Some(BedrockBackend::Native));
    assert_eq!(dto.host_os, Some(HostOs::Linux));
    assert_eq!(dto.message.as_deref(), Some("detected"));
    assert_eq!(dto.help_id, None);
    let dto = state_dto(e, true, "linux");
    assert_eq!(dto.state, "unavailable");
    assert_eq!(dto.help_id.as_deref(), Some("bedrock.runtime-unavailable"));
    let p = eligibility(BedrockHost::MacosIntel, Some(RuntimeBackend::Sidecar), EligibilityState::ProvisioningRequired);
    let dto = state_dto(p, true, "macos");
    assert_eq!(dto.state, "provisioning_required");
    assert_eq!(dto.backend, Some(BedrockBackend::VzSidecar));
    assert_eq!(dto.host_os, Some(HostOs::Macos));
    let t = unavailable_for_tests();
    assert_eq!(t.reason_code.as_deref(), Some("test_runtime_not_selected"));
    let dto = state_dto(t, false, "plan9");
    assert_eq!((dto.state.as_str(), dto.host_os), ("unavailable", None));
    assert_eq!(backend_dto(RuntimeBackend::Sidecar), BedrockBackend::VzSidecar);
}

#[test]
fn bedrock_provisioning_admission() {
    let linux = eligibility(BedrockHost::Linux, Some(RuntimeBackend::Native), EligibilityState::Available);
    let windows = eligibility(BedrockHost::Windows, Some(RuntimeBackend::Native), EligibilityState::Available);
    let mac = eligibility(BedrockHost::MacosIntel, Some(RuntimeBackend::Sidecar), EligibilityState::Available);
    let arm = eligibility(BedrockHost::MacosAppleSilicon, Some(RuntimeBackend::Sidecar), EligibilityState::Unavailable);
    assert_eq!(distribution_platform(&linux), Some(BedrockPlatform::Linux));
    assert_eq!(distribution_platform(&windows), Some(BedrockPlatform::Windows));
    assert_eq!(distribution_platform(&mac), Some(BedrockPlatform::Linux));
    assert_eq!(distribution_platform(&arm), None);
    assert_eq!(admit_provision(&windows, true), Ok(BedrockPlatform::Windows));
    assert_eq!(
        admit_provision(&windows, false),
        Err(BedrockRuntimeError::Transport("Bedrock runtime is unavailable.".into()))
    );
    assert_eq!(
        admit_provision(&arm, true),
        Err(BedrockRuntimeError::Provisioning("no Bedrock distribution platform is selected".into()))
    );
    assert_eq!(accept_refreshed(&linux), Ok(()));
    let still = eligibility(BedrockHost::Linux, Some(RuntimeBackend::Native), EligibilityState::ProvisioningRequired);
    assert_eq!(accept_refreshed(&still), Err(BedrockRuntimeError::Provisioning("detected".into())));
}

#[test]
fn every_answer_carries_the_security_headers() {
    let headers = msc_agent::api::security_headers();
    let names: Vec<&str> = headers.iter().map(|(k, _)| k.as_str()).collect();
    assert_eq!(names, vec!["Content-Security-Policy", "X-Content-Type-Options", "Referrer-Policy"]);
    assert!(headers[0].1.starts_with("default-src 'self'; base-uri 'none';"));
    assert_eq!(headers[1].1, "nosniff");
    assert_eq!(headers[2].1, "no-referrer");
}

//! The Bedrock runtime chosen at agent startup: what state it reports, on
//! which distribution it is provisioned, and which provisioning requests
//! are admitted.

use vstd::prelude::*;
use crate::capabilities::HostOs;
use crate::health::{BedrockBackend, BedrockRuntimeState};
use crate::text::{chars_of, concat_str, is_literal};

verus! {

/// The host kinds that a Bedrock runtime is selected for.
#[derive(Debug, Clone, Copy, PartialEq, Eq)]
pub enum BedrockHost {
    Linux,
    Windows,
    MacosIntel,
    MacosAppleSilicon,
    Other,
}

/// How a runtime runs the Bedrock server.
#[derive(Debug, Clone, Copy, PartialEq, Eq)]
pub enum RuntimeBackend {
    /// The server binary runs directly on the host.
    Native,
    /// The server runs in a Linux VM next to the agent.
    Sidecar,
}

/// Whether the host can run Bedrock servers.
#[derive(Debug, Clone, Copy, PartialEq, Eq)]
pub enum EligibilityState {
    Available,
    ProvisioningRequired,
    Unavailable,
}

/// What startup detection found of the host's Bedrock support.
#[derive(Debug, Clone, PartialEq, Eq)]
pub struct BedrockEligibility {
    pub host: BedrockHost,
    pub backend: Option<RuntimeBackend>,
    pub state: EligibilityState,
    pub reason_code: Option<String>,
    pub message: String,
}

/// The distribution of the Bedrock server that a runtime installs.
#[derive(Debug, Clone, Copy, PartialEq, Eq)]
pub enum BedrockPlatform {
    Linux,
    Windows,
}

/// A failure of the Bedrock runtime.
#[derive(Debug, Clone, PartialEq, Eq)]
pub enum BedrockRuntimeError {
    /// The runtime could not be reached.
    Transport(String),
    /// The server could not be installed.
    Provisioning(String),
}

/// The eligibility that reports that no runtime was selected.
pub fn unavailable_for_tests() -> (res: BedrockEligibility)
    ensures
        res.host == BedrockHost::Other,
        res.backend is None,
        res.state == EligibilityState::Unavailable,
        res.reason_code matches Some(c) && c@ == "test_runtime_not_selected"@,
        res.message@ == "No production Bedrock runtime was selected."@,
{
    BedrockEligibility {
        host: BedrockHost::Other,
        backend: None,
        state: EligibilityState::Unavailable,
        reason_code: Some(concat_str(String::new(), "test_runtime_not_selected")),
        message: concat_str(String::new(), "No production Bedrock runtime was selected."),
    }
}

/// The state that the runtime reports: an eligible host whose runtime is
/// not running reports `unavailable`; otherwise the eligibility's state.
pub open spec fn reported_state(state: EligibilityState, runtime_unavailable: bool) -> Seq<char> {
    if state == EligibilityState::Available && runtime_unavailable {
        "unavailable"@
    } else {
        match state {
            EligibilityState::Available => "available"@,
            EligibilityState::ProvisioningRequired => "provisioning_required"@,
            EligibilityState::Unavailable => "unavailable"@,
        }
    }
}

/// How the state answer names a backend.
pub open spec fn backend_view(backend: RuntimeBackend) -> BedrockBackend {
    match backend {
        RuntimeBackend::Native => BedrockBackend::Native,
        RuntimeBackend::Sidecar => BedrockBackend::VzSidecar,
    }
}

/// How the state answer names a backend.
pub fn backend_dto(backend: RuntimeBackend) -> (res: BedrockBackend)
    ensures
        res == backend_view(backend),
{
    match backend {
        RuntimeBackend::Native => BedrockBackend::Native,
        RuntimeBackend::Sidecar => BedrockBackend::VzSidecar,
    }
}

/// The host OS that an OS name names, where it is one of the three.
pub open spec fn host_os_of(name: Seq<char>) -> Option<HostOs> {
    if name == "linux"@ {
        Some(HostOs::Linux)
    } else if name == "windows"@ {
        Some(HostOs::Windows)
    } else if name == "macos"@ {
        Some(HostOs::Macos)
    } else {
        None
    }
}

/// The runtime's state answer. `runtime_unavailable` says that the
/// selected runtime reports itself unavailable; `host_os_name` is the name
/// of the host's OS family. An unavailable runtime points at the help
/// topic about it.
pub fn state_dto(eligibility: BedrockEligibility, runtime_unavailable: bool, host_os_name: &str) -> (res:
    BedrockRuntimeState)
    ensures
        res.state@ == reported_state(eligibility.state, runtime_unavailable),
        res.backend == match eligibility.backend {
            Some(b) => Some(backend_view(b)),
            None => None::<BedrockBackend>,
        },
        res.host_os == host_os_of(host_os_name@),
        res.reason_code == eligibility.reason_code,
        res.message == Some(eligibility.message),
        match res.help_id {
            Some(h) => res.state@ == "unavailable"@ && h@ == "bedrock.runtime-unavailable"@,
            None => res.state@ != "unavailable"@,
        },
{
    let unavailable_now = match eligibility.state {
        EligibilityState::Available => runtime_unavailable,
        EligibilityState::ProvisioningRequired => false,
        EligibilityState::Unavailable => true,
    };
    let state = if unavailable_now {
        "unavailable"
    } else {
        match eligibility.state {
            EligibilityState::ProvisioningRequired => "provisioning_required",
            _ => "available",
        }
    };
    proof {
        reveal_strlit("unavailable");
        reveal_strlit("available");
        reveal_strlit("provisioning_required");
        assert("unavailable"@[0] != "available"@[0]);
        assert("unavailable"@[0] != "provisioning_required"@[0]);
        reveal_strlit("linux");
        reveal_strlit("windows");
        reveal_strlit("macos");
        assert("linux"@[0] != "macos"@[0]);
        assert("windows"@.len() != "macos"@.len());
        assert("windows"@.len() != "linux"@.len());
    }
    let os = chars_of(host_os_name);
    let host_os = if is_literal(os.as_slice(), "linux") {
        Some(HostOs::Linux)
    } else if is_literal(os.as_slice(), "windows") {
        Some(HostOs::Windows)
    } else if is_literal(os.as_slice(), "macos") {
        Some(HostOs::Macos)
    } else {
        None
    };
    BedrockRuntimeState {
        state: concat_str(String::new(), state),
        backend: match eligibility.backend {
            Some(b) => Some(backend_dto(b)),
            None => None,
        },
        host_os,
        reason_code: eligibility.reason_code,
        message: Some(eligibility.message),
        help_id: if unavailable_now {
            Some(concat_str(String::new(), "bedrock.runtime-unavailable"))
        } else {
            None
        },
    }
}

/// The distribution a runtime installs: Linux for a native Linux runtime
/// and for the VM on an Intel Mac, Windows for a native Windows runtime.
pub open spec fn platform_for(host: BedrockHost, backend: Option<RuntimeBackend>) -> Option<BedrockPlatform> {
    match (host, backend) {
        (BedrockHost::Linux, Some(RuntimeBackend::Native)) => Some(BedrockPlatform::Linux),
        (BedrockHost::Windows, Some(RuntimeBackend::Native)) => Some(BedrockPlatform::Windows),
        (BedrockHost::MacosIntel, Some(RuntimeBackend::Sidecar)) => Some(BedrockPlatform::Linux),
        _ => None,
    }
}

/// The distribution a runtime installs (see `platform_for`).
pub fn distribution_platform(eligibility: &BedrockEligibility) -> (res: Option<BedrockPlatform>)
    ensures
        res == platform_for(eligibility.host, eligibility.backend),
{
    match (eligibility.host, eligibility.backend) {
        (BedrockHost::Linux, Some(RuntimeBackend::Native)) => Some(BedrockPlatform::Linux),
        (BedrockHost::Windows, Some(RuntimeBackend::Native)) => Some(BedrockPlatform::Windows),
        (BedrockHost::MacosIntel, Some(RuntimeBackend::Sidecar)) => Some(BedrockPlatform::Linux),
        _ => None,
    }
}

/// Admits a provisioning request: the host needs a distribution, and a
/// runtime must have been selected. Gives the distribution to install.
pub fn admit_provision(eligibility: &BedrockEligibility, runtime_selected: bool) -> (res: Result<
    BedrockPlatform,
    BedrockRuntimeError,
>)
    ensures
        match platform_for(eligibility.host, eligibility.backend) {
            None => res matches Err(BedrockRuntimeError::Provisioning(m)) && m@
                == "no Bedrock distribution platform is selected"@,
            Some(p) => if runtime_selected {
                res == Ok::<BedrockPlatform, BedrockRuntimeError>(p)
            } else {
                res matches Err(BedrockRuntimeError::Transport(m)) && m@
                    == "Bedrock runtime is unavailable."@
            },
        },
{
    let platform = match distribution_platform(eligibility) {
        Some(p) => p,
        None => {
            return Err(
                BedrockRuntimeError::Provisioning(
                    concat_str(String::new(), "no Bedrock distribution platform is selected"),
                ),
            );
        },
    };
    if !runtime_selected {
        return Err(
            BedrockRuntimeError::Transport(concat_str(String::new(), "Bedrock runtime is unavailable.")),
        );
    }
    Ok(platform)
}

/// After installing, the host must be eligible again; otherwise the
/// provisioning fails with the detection's message.
pub fn accept_refreshed(refreshed: &BedrockEligibility) -> (res: Result<(), BedrockRuntimeError>)
    ensures
        refreshed.state == EligibilityState::Available ==> res is Ok,
        refreshed.state != EligibilityState::Available ==> res == Err::<(), BedrockRuntimeError>(
            BedrockRuntimeError::Provisioning(refreshed.message),
        ),
{
    match refreshed.state {
        EligibilityState::Available => Ok(()),
        _ => Err(BedrockRuntimeError::Provisioning(refreshed.message.clone())),
    }
}

} // verus!

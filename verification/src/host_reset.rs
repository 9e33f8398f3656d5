//! The host-local destructive reset: which requests are admitted, the lock
//! that lets one reset run at a time, and the steps that a running reset
//! reports.

use vstd::prelude::*;
use crate::api::{ApiError, BAD_REQUEST, CONFLICT, INTERNAL_SERVER_ERROR, error_response, invalid_body, is_error};
use crate::text::{chars_of, concat_str, is_literal};

verus! {

/// What a reset removes.
#[derive(Debug, Clone, Copy, PartialEq, Eq)]
pub enum HostResetMode {
    /// The agent's configuration only.
    Configuration,
    /// Everything the agent manages.
    Everything,
}

impl HostResetMode {
    /// The mode's name.
    pub open spec fn name(self) -> Seq<char> {
        match self {
            HostResetMode::Configuration => "configuration"@,
            HostResetMode::Everything => "everything"@,
        }
    }

    /// The mode's name.
    pub fn as_str(self) -> (res: &'static str)
        ensures
            res@ == self.name(),
    {
        match self {
            HostResetMode::Configuration => "configuration",
            HostResetMode::Everything => "everything",
        }
    }
}

/// The text that the operator must type to confirm a reset.
pub open spec fn reset_confirmation() -> Seq<char> {
    "RESET AGENT"@
}

/// Lets at most one host reset run at a time.
pub struct ResetLock {
    in_progress: bool,
}

impl ResetLock {
    /// Whether a reset is running.
    pub closed spec fn busy(self) -> bool {
        self.in_progress
    }

    /// A lock with no reset running.
    pub fn new() -> (res: Self)
        ensures
            !res.busy(),
    {
        ResetLock { in_progress: false }
    }

    /// Claims the lock: succeeds only where no reset is running, and then
    /// marks one as running.
    pub fn try_claim(&mut self) -> (res: bool)
        ensures
            res == !old(self).busy(),
            final(self).busy(),
    {
        if self.in_progress {
            false
        } else {
            self.in_progress = true;
            true
        }
    }

    /// Releases the lock once the reset ended.
    pub fn release(&mut self)
        ensures
            !final(self).busy(),
    {
        self.in_progress = false;
    }
}

/// Admits a reset request: the mode must be known; the host id must be
/// readable; the confirmation must be typed exactly; no server may run;
/// no other reset may be running. An admitted request holds the lock.
pub fn admit_reset(
    mode: &str,
    host_id: Result<String, String>,
    confirmation: &str,
    running: bool,
    lock: &mut ResetLock,
) -> (res: Result<(HostResetMode, String), ApiError>)
    ensures
        !(mode@ == "configuration"@ || mode@ == "everything"@) ==> (res matches Err(e) && is_error(
            e,
            BAD_REQUEST,
            "invalid_mode"@,
            "The host reset mode is not recognized."@,
        )) && final(lock).busy() == old(lock).busy(),
        (mode@ == "configuration"@ || mode@ == "everything"@) ==> match host_id {
            Err(m) => res matches Err(e) && is_error(e, INTERNAL_SERVER_ERROR, "internal_error"@, m@)
                && final(lock).busy() == old(lock).busy(),
            Ok(id) => if confirmation@ != reset_confirmation() {
                res matches Err(e) && is_error(
                    e,
                    BAD_REQUEST,
                    "confirmation_mismatch"@,
                    "Confirmation must exactly match RESET AGENT."@,
                ) && final(lock).busy() == old(lock).busy()
            } else if running {
                res matches Err(e) && is_error(
                    e,
                    CONFLICT,
                    "server_running"@,
                    "Stop the running server before resetting this host."@,
                ) && final(lock).busy() == old(lock).busy()
            } else if old(lock).busy() {
                res matches Err(e) && is_error(
                    e,
                    CONFLICT,
                    "reset_in_progress"@,
                    "A host reset is already in progress."@,
                ) && final(lock).busy()
            } else {
                res matches Ok((m, h)) && m.name() == mode@ && h == id && final(lock).busy()
            },
        },
{
    let m = chars_of(mode);
    let kind = if is_literal(m.as_slice(), "configuration") {
        HostResetMode::Configuration
    } else if is_literal(m.as_slice(), "everything") {
        HostResetMode::Everything
    } else {
        return Err(invalid_body("invalid_mode", "The host reset mode is not recognized."));
    };
    let id = match host_id {
        Ok(id) => id,
        Err(message) => return Err(
            error_response(INTERNAL_SERVER_ERROR, "internal_error", message.as_str()),
        ),
    };
    let c = chars_of(confirmation);
    if !is_literal(c.as_slice(), "RESET AGENT") {
        return Err(
            error_response(
                BAD_REQUEST,
                "confirmation_mismatch",
                "Confirmation must exactly match RESET AGENT.",
            ),
        );
    }
    if running {
        return Err(
            error_response(
                CONFLICT,
                "server_running",
                "Stop the running server before resetting this host.",
            ),
        );
    }
    if !lock.try_claim() {
        return Err(
            error_response(CONFLICT, "reset_in_progress", "A host reset is already in progress."),
        );
    }
    Ok((kind, id))
}

/// The progress that a running reset reports at step `step` of four.
pub open spec fn reset_step_text(step: int) -> Seq<char> {
    if step == 1 {
        "Stopping managed helpers and clearing in-memory host state."@
    } else if step == 2 {
        "Removing approved host files."@
    } else if step == 3 {
        "Cleared approved host files."@
    } else {
        "Revoked credentials and rotated host identity."@
    }
}

/// The progress that a running reset reports at step `step` of four.
pub fn reset_step(step: u32) -> (res: &'static str)
    requires
        1 <= step <= 4,
    ensures
        res@ == reset_step_text(step as int),
{
    if step == 1 {
        "Stopping managed helpers and clearing in-memory host state."
    } else if step == 2 {
        "Removing approved host files."
    } else if step == 3 {
        "Cleared approved host files."
    } else {
        "Revoked credentials and rotated host identity."
    }
}

/// What an admitted reset answers at once.
#[derive(Debug, Clone, PartialEq, Eq)]
pub struct HostResetAccepted {
    /// `202 Accepted`: the destructive work runs after the answer.
    pub status: u16,
    pub operation_id: String,
    pub host_id: String,
    pub mode: String,
    pub agent_state: String,
    pub message: String,
}

/// What an admitted reset answers at once: `202 Accepted`, and the host
/// must be paired again.
pub fn reset_accepted(operation_id: String, host_id: String, mode: String) -> (res: HostResetAccepted)
    ensures
        res.status == 202,
        res.operation_id == operation_id,
        res.host_id == host_id,
        res.mode == mode,
        res.agent_state@ == "needs_pairing"@,
        res.message@ == "Host reset accepted. Pair this host again after the agent is available."@,
{
    HostResetAccepted {
        status: 202,
        operation_id,
        host_id,
        mode,
        agent_state: concat_str(String::new(), "needs_pairing"),
        message: concat_str(
            String::new(),
            "Host reset accepted. Pair this host again after the agent is available.",
        ),
    }
}

/// How preparing an admitted reset went.
#[derive(Debug, Clone, PartialEq, Eq)]
pub enum ResetPreparation {
    /// The operation and the reset workflow are ready; the reset starts.
    Ready,
    /// The operation journal refused to begin the operation, with the
    /// answer that it gives for that.
    OperationRefused { answer: ApiError },
    /// The reset workflow could not be set up; `message` is the error's text.
    WorkflowUnavailable { message: String },
    /// The workflow could not begin; `message` is the error's text.
    BeginFailed { message: String },
}

/// A reset that could not be started: the answer, and how its operation,
/// where one was begun, is failed.
#[derive(Debug, Clone, PartialEq, Eq)]
pub struct ResetRefusal {
    pub answer: ApiError,
    /// The code and the text with which the operation is failed.
    pub operation_failure: Option<(String, String)>,
}

/// `r` answers `500 internal_error` with `message` and fails the operation
/// with `code` and `message`.
pub open spec fn failed_preparation(r: ResetRefusal, code: Seq<char>, message: String) -> bool {
    &&& is_error(r.answer, INTERNAL_SERVER_ERROR, "internal_error"@, message@)
    &&& r.operation_failure matches Some((c, m)) && c@ == code && m == message
}

/// What follows the preparation of an admitted reset: where it is ready,
/// nothing is refused and the lock stays held for the worker; otherwise
/// the lock is released, the operation (where one was begun) is failed
/// with `invalid_reset_target` or `reset_prepare_failed`, and the request
/// is answered `500 internal_error` with the error's text, or with the
/// journal's own answer where no operation could begin.
pub fn reset_prepared(lock: &mut ResetLock, preparation: ResetPreparation) -> (res: Option<
    ResetRefusal,
>)
    ensures
        match preparation {
            ResetPreparation::Ready => res is None && final(lock).busy() == old(lock).busy(),
            ResetPreparation::OperationRefused { answer } => !final(lock).busy() && res == Some(
                ResetRefusal { answer, operation_failure: None },
            ),
            ResetPreparation::WorkflowUnavailable { message } => !final(lock).busy() && (res matches Some(r)
                && failed_preparation(r, "invalid_reset_target"@, message)),
            ResetPreparation::BeginFailed { message } => !final(lock).busy() && (res matches Some(r)
                && failed_preparation(r, "reset_prepare_failed"@, message)),
        },
{
    match preparation {
        ResetPreparation::Ready => None,
        ResetPreparation::OperationRefused { answer } => {
            lock.release();
            Some(ResetRefusal { answer, operation_failure: None })
        },
        ResetPreparation::WorkflowUnavailable { message } => {
            lock.release();
            let answer = error_response(INTERNAL_SERVER_ERROR, "internal_error", message.as_str());
            Some(
                ResetRefusal {
                    answer,
                    operation_failure: Some((concat_str(String::new(), "invalid_reset_target"), message)),
                },
            )
        },
        ResetPreparation::BeginFailed { message } => {
            lock.release();
            let answer = error_response(INTERNAL_SERVER_ERROR, "internal_error", message.as_str());
            Some(
                ResetRefusal {
                    answer,
                    operation_failure: Some((concat_str(String::new(), "reset_prepare_failed"), message)),
                },
            )
        },
    }
}

/// What the reset worker does next.
#[derive(Debug, Clone, PartialEq, Eq)]
pub enum ResetAction {
    /// Report step `step` of four with `message`.
    Progress { step: u32, message: String },
    /// Stop the managed helpers and clear the in-memory host state.
    ClearHostState,
    /// Remove the approved host files.
    ApplyFiles,
    /// Revoke the credentials and rotate the host identity.
    ResetCredentials,
    /// Remove the reset marker.
    Finish,
    /// Succeed the operation with `message` and its result fields.
    Succeed { message: String, mode: String, agent_state: String },
    /// Fail the operation with `code` and `message`; the lock is released.
    Fail { code: String, message: String },
    /// The reset is over; the lock is released.
    Done,
}

/// The number of actions of a reset, from the first progress report to
/// the operation's success.
pub open spec fn reset_action_count() -> int {
    9
}

/// The `k`-th action of a reset (from 0) is `a`: four progress reports
/// around clearing the host state, removing the files, resetting the
/// credentials and finishing, then the operation's success.
pub open spec fn planned_reset_action(k: int, mode: HostResetMode, a: ResetAction) -> bool {
    if k == 0 || k == 2 || k == 4 || k == 6 {
        a matches ResetAction::Progress { step, message } && step == k / 2 + 1 && message@
            == reset_step_text(k / 2 + 1)
    } else if k == 1 {
        a == ResetAction::ClearHostState
    } else if k == 3 {
        a == ResetAction::ApplyFiles
    } else if k == 5 {
        a == ResetAction::ResetCredentials
    } else if k == 7 {
        a == ResetAction::Finish
    } else {
        a matches ResetAction::Succeed { message, mode: m, agent_state } && message@
            == "Host reset complete; fresh pairing required."@ && m@ == mode.name() && agent_state@
            == "needs_pairing"@
    }
}

/// The code with which the operation fails where the `k`-th action failed:
/// removing the files, resetting the credentials and finishing have codes
/// of their own; a failing progress report or success is an operation
/// failure.
pub open spec fn reset_failure_code(k: int) -> Seq<char> {
    if k == 3 {
        "reset_files_failed"@
    } else if k == 5 {
        "reset_auth_failed"@
    } else if k == 7 {
        "reset_finalize_failed"@
    } else {
        "reset_operation_failed"@
    }
}

fn reset_step_message(step: u32) -> (res: String)
    requires
        1 <= step <= 4,
    ensures
        res@ == reset_step_text(step as int),
{
    concat_str(String::new(), reset_step(step))
}

/// The reset worker's next action once `done` actions ran, the last one
/// with `outcome` (`Ok` before the first): the first failure fails the
/// operation with its code and text; after the success the reset is done;
/// otherwise the next planned action. The lock is released where the reset
/// ends, and is left as it is while it runs.
pub fn reset_worker_step(
    lock: &mut ResetLock,
    done: u32,
    outcome: Result<(), String>,
    mode: HostResetMode,
) -> (res: ResetAction)
    requires
        done <= reset_action_count(),
    ensures
        done > 0 && outcome is Err ==> (res matches ResetAction::Fail { code, message } && code@
            == reset_failure_code(done - 1) && message == outcome->Err_0) && !final(lock).busy(),
        (done == 0 || outcome is Ok) && done == reset_action_count() ==> res == ResetAction::Done
            && !final(lock).busy(),
        (done == 0 || outcome is Ok) && done < reset_action_count() ==> planned_reset_action(
            done as int,
            mode,
            res,
        ) && final(lock).busy() == old(lock).busy(),
{
    if done > 0 {
        if let Err(message) = outcome {
            lock.release();
            let code = if done == 4 {
                "reset_files_failed"
            } else if done == 6 {
                "reset_auth_failed"
            } else if done == 8 {
                "reset_finalize_failed"
            } else {
                "reset_operation_failed"
            };
            return ResetAction::Fail { code: concat_str(String::new(), code), message };
        }
    }
    if done == 9 {
        lock.release();
        return ResetAction::Done;
    }
    if done == 0 || done == 2 || done == 4 || done == 6 {
        let step = done / 2 + 1;
        return ResetAction::Progress { step, message: reset_step_message(step) };
    }
    if done == 1 {
        ResetAction::ClearHostState
    } else if done == 3 {
        ResetAction::ApplyFiles
    } else if done == 5 {
        ResetAction::ResetCredentials
    } else if done == 7 {
        ResetAction::Finish
    } else {
        ResetAction::Succeed {
            message: concat_str(String::new(), "Host reset complete; fresh pairing required."),
            mode: concat_str(String::new(), mode.as_str()),
            agent_state: concat_str(String::new(), "needs_pairing"),
        }
    }
}

} // verus!

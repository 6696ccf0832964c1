//! The requests the runtime puts to the host on the agent's behalf (a question for the
//! user, a UI dialog, leaving plan mode, switching into auto mode), and how a session
//! answers each with the handler the host registered, or without one.

use crate::error::CopilotError;
use crate::json::Json;
use crate::text::string_of;
use vstd::prelude::*;

verus! {

// =============================================================================
// User input
// =============================================================================

/// A question the agent asks the user.
#[derive(Debug, Clone)]
pub struct UserInputRequest {
    pub question: String,
    /// Answers to choose from, if any.
    pub choices: Option<Vec<String>>,
    /// Whether an answer outside the choices is allowed.
    pub allow_freeform: Option<bool>,
}

/// The user's answer.
#[derive(Debug, Clone)]
pub struct UserInputResponse {
    pub answer: String,
    /// Whether the answer was typed rather than chosen.
    pub was_freeform: Option<bool>,
}

/// The session a question was asked in.
#[derive(Debug, Clone)]
pub struct UserInputInvocation {
    pub session_id: String,
}

impl UserInputInvocation {
    /// The invocation for the session `session_id`.
    pub fn new(session_id: &str) -> (r: UserInputInvocation)
        ensures
            r.session_id@ == session_id@,
    {
        UserInputInvocation { session_id: string_of(session_id) }
    }
}

/// Answers a question with the registered handler, called with the question and the
/// invocation; without a handler it fails with a protocol error.
pub fn handle_user_input_request<F>(
    handler: Option<&F>,
    invocation: &UserInputInvocation,
    request: &UserInputRequest,
) -> (r: Result<UserInputResponse, CopilotError>) where
    F: Fn(&UserInputRequest, &UserInputInvocation) -> UserInputResponse + ?Sized,

    requires
        handler matches Some(h) ==> call_requires(h, (request, invocation)),
    ensures
        match handler {
            Some(h) => r matches Ok(resp) && call_ensures(h, (request, invocation), resp),
            None => r matches Err(CopilotError::Protocol(m)) && m@
                == "No user input handler registered"@,
        },
{
    match handler {
        Some(h) => Ok(h(request, invocation)),
        None => Err(CopilotError::Protocol(string_of("No user input handler registered"))),
    }
}

// =============================================================================
// Elicitation
// =============================================================================

/// One option of a `select` dialog.
#[derive(Debug, Clone)]
pub struct ElicitationOption {
    pub label: String,
    pub value: String,
}

/// A UI dialog the runtime asks the host to show.
#[derive(Debug, Clone)]
pub struct ElicitationParams {
    /// The kind of dialog: `confirm`, `select`, `input`, or another.
    pub elicitation_type: String,
    pub message: String,
    pub options: Option<Vec<ElicitationOption>>,
}

/// A dialog with the session it was shown in.
#[derive(Debug, Clone)]
pub struct ElicitationContext {
    pub session_id: String,
    pub params: ElicitationParams,
}

/// The outcome of a dialog: the action taken and, when accepted, what was entered.
#[derive(Debug, Clone)]
pub struct ElicitationResult {
    pub action: String,
    pub content: Option<Json>,
}

impl ElicitationResult {
    /// The dialog was accepted with `content`.
    pub fn accept(content: Json) -> (r: ElicitationResult)
        ensures
            r.action@ == "accept"@,
            r.content == Some(content),
    {
        ElicitationResult { action: string_of("accept"), content: Some(content) }
    }

    /// The dialog was dismissed.
    pub fn dismiss() -> (r: ElicitationResult)
        ensures
            r.action@ == "cancel"@,
            r.content is None,
    {
        ElicitationResult { action: string_of("cancel"), content: None }
    }
}

/// Answers a dialog with the registered handler; without a handler it fails with a
/// protocol error.
pub fn handle_elicitation_request<F>(handler: Option<&F>, context: &ElicitationContext) -> (r:
    Result<ElicitationResult, CopilotError>) where
    F: Fn(&ElicitationContext) -> ElicitationResult + ?Sized,

    requires
        handler matches Some(h) ==> call_requires(h, (context,)),
    ensures
        match handler {
            Some(h) => r matches Ok(res) && call_ensures(h, (context,), res),
            None => r matches Err(CopilotError::Protocol(m)) && m@
                == "No elicitation handler registered"@,
        },
{
    match handler {
        Some(h) => Ok(h(context)),
        None => Err(CopilotError::Protocol(string_of("No elicitation handler registered"))),
    }
}

// =============================================================================
// Exit plan mode
// =============================================================================

/// The agent's request to leave plan mode.
#[derive(Debug, Clone)]
pub struct ExitPlanModeRequest {
    pub session_id: Option<String>,
    pub summary: String,
    pub plan_content: Option<String>,
    /// The actions offered.
    pub actions: Vec<String>,
    pub recommended_action: String,
}

/// The host's answer to leaving plan mode.
#[derive(Debug, Clone)]
pub struct ExitPlanModeResult {
    pub approved: bool,
    pub selected_action: Option<String>,
    pub feedback: Option<String>,
}

impl Default for ExitPlanModeResult {
    /// Approved, with no action chosen and no feedback.
    fn default() -> (r: ExitPlanModeResult)
        ensures
            r.approved,
            r.selected_action is None,
            r.feedback is None,
    {
        ExitPlanModeResult { approved: true, selected_action: None, feedback: None }
    }
}

/// Answers a request to leave plan mode with the registered handler; without one it is
/// approved.
pub fn handle_exit_plan_mode_request<F>(handler: Option<&F>, request: &ExitPlanModeRequest) -> (r:
    ExitPlanModeResult) where F: Fn(&ExitPlanModeRequest) -> ExitPlanModeResult + ?Sized,

    requires
        handler matches Some(h) ==> call_requires(h, (request,)),
    ensures
        match handler {
            Some(h) => call_ensures(h, (request,), r),
            None => r.approved && r.selected_action is None && r.feedback is None,
        },
{
    match handler {
        Some(h) => h(request),
        None => ExitPlanModeResult { approved: true, selected_action: None, feedback: None },
    }
}

// =============================================================================
// Auto mode switch
// =============================================================================

/// The agent's request to switch into auto mode after a rate limit.
#[derive(Debug, Clone, Default)]
pub struct AutoModeSwitchRequest {
    pub error_code: Option<String>,
    pub retry_after_seconds: Option<u64>,
}

/// The host's answer to switching into auto mode.
#[derive(Debug, Clone, Copy, PartialEq, Eq, Structural)]
pub enum AutoModeSwitchResponse {
    /// Switch this time.
    Yes,
    /// Switch, and do so from now on without asking.
    YesAlways,
    /// Do not switch.
    No,
}

/// Answers a request to switch into auto mode with the registered handler; without one
/// the answer is no.
pub fn handle_auto_mode_switch_request<F>(handler: Option<&F>, request: &AutoModeSwitchRequest) -> (r:
    AutoModeSwitchResponse) where F: Fn(&AutoModeSwitchRequest) -> AutoModeSwitchResponse + ?Sized,

    requires
        handler matches Some(h) ==> call_requires(h, (request,)),
    ensures
        match handler {
            Some(h) => call_ensures(h, (request,), r),
            None => r == AutoModeSwitchResponse::No,
        },
{
    match handler {
        Some(h) => h(request),
        None => AutoModeSwitchResponse::No,
    }
}

} // verus!

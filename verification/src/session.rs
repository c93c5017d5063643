//! The state of the agent task and the decisions taken on user actions and
//! approval requests during an interactive session.
use vstd::prelude::*;
use crate::types::opt_str;
use crate::messages::{SystemMessage, SystemMessageKind};
use crate::commands::{
    compact_end_message, compact_end_text, compact_start_message, compact_start_text, error_notice, is_notice, notice,
};

verus! {

/// The state of the agent task: whether it runs, and the handle by which it
/// can be cancelled.
pub struct AgentTaskState<H> {
    pub running: bool,
    pub handle: Option<H>,
}

/// The state after starting a task with `handle`.
pub open spec fn started<H>(handle: H) -> AgentTaskState<H> {
    AgentTaskState { running: true, handle: Some(handle) }
}

/// The idle state: no task, no handle.
pub open spec fn idle<H>() -> AgentTaskState<H> {
    AgentTaskState { running: false, handle: None }
}

impl<H> AgentTaskState<H> {
    /// No task yet.
    pub fn new() -> (s: AgentTaskState<H>)
        ensures
            s == idle::<H>(),
    {
        AgentTaskState { running: false, handle: None }
    }

    /// A task was started; its handle is kept for cancellation.
    pub fn start(&mut self, handle: H)
        ensures
            *final(self) == started(handle),
    {
        self.running = true;
        self.handle = Some(handle);
    }

    /// Stops the task: it no longer runs, and the handle (if any) is handed
    /// back to be aborted.
    pub fn stop(&mut self) -> (h: Option<H>)
        ensures
            *final(self) == idle::<H>(),
            h == old(self).handle,
    {
        self.running = false;
        let mut h: Option<H> = None;
        std::mem::swap(&mut h, &mut self.handle);
        h
    }

    /// The task finished by itself; its handle is dropped.
    pub fn complete(&mut self)
        ensures
            *final(self) == idle::<H>(),
    {
        self.running = false;
        self.handle = None;
    }

    /// Whether a task runs.
    pub fn is_running(&self) -> (r: bool)
        ensures
            r == self.running,
    {
        self.running
    }
}

/// Stopping a task that was started hands back exactly the handle it was
/// started with, and leaves nothing running.
pub proof fn law_stop_returns_started_handle<H>(handle: H)
    ensures
        started(handle).handle == Some(handle),
        started(handle).running,
        !idle::<H>().running && idle::<H>().handle is None,
{
}

/// How the user answered an approval request.
#[derive(Debug, Clone, Copy, PartialEq, Eq, Structural)]
pub enum ApprovalResponse {
    Yes,
    YesAlways,
    No,
}

/// An action of the user, as the UI reports it.
#[derive(Debug)]
pub enum AppAction {
    Continue,
    Exit,
    Submit(String),
    Command(String),
    CycleMode,
    ToggleToolExpand,
    ScrollUp,
    ScrollDown,
    Interrupt,
    Approve(ApprovalResponse),
    OpenConfig,
}

/// What the session does about a user action.
#[derive(Debug)]
pub enum ActionPlan {
    /// Nothing; the loop goes on.
    Nothing,
    /// Cancel the task, mark the app as exiting, and leave the loop.
    StopAndExit,
    /// Show the message and run the agent on it.
    StartAgent(String),
    /// Run the command.
    RunCommand(String),
    /// Switch to the next mode.
    CycleMode,
    ToggleToolExpand,
    ScrollUp,
    ScrollDown,
    /// Cancel the task, stop the loading indicator and show the interruption.
    Interrupt,
    /// Answer the pending approval request, then hide the dialog.
    Reply { response: ApprovalResponse, feedback: Option<String> },
    OpenConfig,
}

/// The feedback sent with a refusal.
pub open spec fn rejection_feedback() -> Seq<char> {
    "User rejected the tool execution"@
}

/// The plan for a user action. Messages and commands are taken only while no
/// agent task runs; a refusal is answered with feedback for the agent; every
/// other action maps to its own step, and only leaving ends the loop.
pub open spec fn planned(action: AppAction, task_running: bool, p: ActionPlan) -> bool {
    match action {
        AppAction::Continue => p is Nothing,
        AppAction::Exit => p is StopAndExit,
        AppAction::Submit(c) => if task_running {
            p is Nothing
        } else {
            p matches ActionPlan::StartAgent(m) && m@ == c@
        },
        AppAction::Command(c) => if task_running {
            p is Nothing
        } else {
            p matches ActionPlan::RunCommand(m) && m@ == c@
        },
        AppAction::CycleMode => p is CycleMode,
        AppAction::ToggleToolExpand => p is ToggleToolExpand,
        AppAction::ScrollUp => p is ScrollUp,
        AppAction::ScrollDown => p is ScrollDown,
        AppAction::Interrupt => p is Interrupt,
        AppAction::Approve(r) => p matches ActionPlan::Reply { response, feedback } && response == r
            && opt_str(feedback) == if r == ApprovalResponse::No {
            Some(rejection_feedback())
        } else {
            None
        },
        AppAction::OpenConfig => p is OpenConfig,
    }
}

/// Decides what to do about a user action.
pub fn plan_app_action(action: AppAction, task_running: bool) -> (p: ActionPlan)
    ensures
        planned(action, task_running, p),
{
    match action {
        AppAction::Continue => ActionPlan::Nothing,
        AppAction::Exit => ActionPlan::StopAndExit,
        AppAction::Submit(content) => if task_running {
            ActionPlan::Nothing
        } else {
            ActionPlan::StartAgent(content)
        },
        AppAction::Command(cmd) => if task_running {
            ActionPlan::Nothing
        } else {
            ActionPlan::RunCommand(cmd)
        },
        AppAction::CycleMode => ActionPlan::CycleMode,
        AppAction::ToggleToolExpand => ActionPlan::ToggleToolExpand,
        AppAction::ScrollUp => ActionPlan::ScrollUp,
        AppAction::ScrollDown => ActionPlan::ScrollDown,
        AppAction::Interrupt => ActionPlan::Interrupt,
        AppAction::Approve(response) => {
            let feedback = if response == ApprovalResponse::No {
                Some("User rejected the tool execution".to_string())
            } else {
                None
            };
            ActionPlan::Reply { response, feedback }
        },
        AppAction::OpenConfig => ActionPlan::OpenConfig,
    }
}

/// How waiting for the user's answer to an approval request ended.
#[derive(Debug)]
pub enum ApprovalWait {
    /// The request could not be queued: the UI is busy with others.
    Busy,
    /// The user answered.
    Answered(ApprovalResponse, Option<String>),
    /// The UI dropped the request.
    Cancelled,
    /// No answer came in time.
    TimedOut,
}

/// The answer the agent gets for an approval request: the user's, or a refusal
/// explaining why there is none.
pub open spec fn approval_answer(w: ApprovalWait, r: (ApprovalResponse, Option<String>)) -> bool {
    match w {
        ApprovalWait::Answered(resp, fb) => r.0 == resp && opt_str(r.1) == opt_str(fb),
        ApprovalWait::Busy => r.0 == ApprovalResponse::No && opt_str(r.1) == Some("Approval channel busy"@),
        ApprovalWait::Cancelled => r.0 == ApprovalResponse::No && opt_str(r.1) == Some("Approval cancelled"@),
        ApprovalWait::TimedOut => r.0 == ApprovalResponse::No && opt_str(r.1) == Some(
            "Approval timeout - no response received"@,
        ),
    }
}

/// The answer the agent gets for an approval request.
pub fn approval_outcome(w: ApprovalWait) -> (r: (ApprovalResponse, Option<String>))
    ensures
        approval_answer(w, r),
{
    match w {
        ApprovalWait::Answered(resp, fb) => (resp, fb),
        ApprovalWait::Busy => (ApprovalResponse::No, Some("Approval channel busy".to_string())),
        ApprovalWait::Cancelled => (ApprovalResponse::No, Some("Approval cancelled".to_string())),
        ApprovalWait::TimedOut => (
            ApprovalResponse::No,
            Some("Approval timeout - no response received".to_string()),
        ),
    }
}


/// What the agent reports while it works. The arguments of a tool call and
/// the result of a tool are carried through as they come.
#[derive(Debug)]
pub enum AgentEvent<A, R> {
    /// Text of the assistant's answer.
    Assistant { content: String },
    /// The agent calls a tool.
    ToolCall { tool_name: String, args: A },
    /// A tool finished.
    ToolResult(R),
    /// The conversation is being compacted.
    CompactStart { current_context_tokens: u64, threshold: u64 },
    /// The conversation was compacted.
    CompactEnd { old_context_tokens: u64, new_context_tokens: u64 },
}

/// What the chat does about an event of the agent.
#[derive(Debug)]
pub enum EventStep<A, R> {
    Nothing,
    /// Extend the assistant's message with the text.
    ExtendAssistant(String),
    /// Show the tool call.
    ShowToolCall { tool_name: String, args: A },
    /// Show the tool's result.
    ShowToolResult(R),
    /// Show a notice.
    Notify(SystemMessage),
    /// Show a notice and set the size of the context, in tokens.
    NotifyAndSetContext(SystemMessage, u64),
}

/// The step for an event: empty assistant text is ignored; compaction is
/// announced with the sizes in thousands of tokens, and its end also sets the
/// context size; the rest is shown as it is.
pub open spec fn event_step_of<A, R>(e: AgentEvent<A, R>, s: EventStep<A, R>) -> bool {
    match e {
        AgentEvent::Assistant { content } => if content@.len() == 0 {
            s is Nothing
        } else {
            s matches EventStep::ExtendAssistant(t) && t@ == content@
        },
        AgentEvent::ToolCall { tool_name, args } => s matches EventStep::ShowToolCall { tool_name: n, args: a }
            && n@ == tool_name@ && a == args,
        AgentEvent::ToolResult(r) => s matches EventStep::ShowToolResult(x) && x == r,
        AgentEvent::CompactStart { current_context_tokens, threshold } => s matches EventStep::Notify(m)
            && is_notice(m, compact_start_text(current_context_tokens, threshold), SystemMessageKind::Info),
        AgentEvent::CompactEnd { old_context_tokens, new_context_tokens } => s matches EventStep::NotifyAndSetContext(
            m,
            n,
        ) && is_notice(m, compact_end_text(old_context_tokens, new_context_tokens), SystemMessageKind::Info) && n
            == new_context_tokens,
    }
}

/// Decides what the chat does about an event of the agent.
pub fn plan_agent_event<A, R>(e: AgentEvent<A, R>) -> (s: EventStep<A, R>)
    ensures
        event_step_of(e, s),
{
    match e {
        AgentEvent::Assistant { content } => if content.as_str().is_empty() {
            EventStep::Nothing
        } else {
            EventStep::ExtendAssistant(content)
        },
        AgentEvent::ToolCall { tool_name, args } => EventStep::ShowToolCall { tool_name, args },
        AgentEvent::ToolResult(r) => EventStep::ShowToolResult(r),
        AgentEvent::CompactStart { current_context_tokens, threshold } => EventStep::Notify(
            notice(compact_start_message(current_context_tokens, threshold), SystemMessageKind::Info),
        ),
        AgentEvent::CompactEnd { old_context_tokens, new_context_tokens } => EventStep::NotifyAndSetContext(
            notice(compact_end_message(old_context_tokens, new_context_tokens), SystemMessageKind::Info),
            new_context_tokens,
        ),
    }
}

/// The notice shown when the agent task ends: none when it succeeded, else
/// its error.
pub fn task_end_notice(result: Result<(), String>) -> (m: Option<SystemMessage>)
    ensures
        match result {
            Ok(()) => m is None,
            Err(e) => m matches Some(n) && is_notice(n, "Error: "@ + e@, SystemMessageKind::Error),
        },
{
    match result {
        Ok(()) => None,
        Err(e) => Some(error_notice(e.as_str())),
    }
}

/// The tools a session enables and disables: tools named on the command line
/// replace the configured ones and lift every exclusion; without any, the
/// configuration stands.
pub fn tool_selection(requested: Vec<String>, enabled: Vec<String>, disabled: Vec<String>) -> (r: (
    Vec<String>,
    Vec<String>,
))
    ensures
        requested@.len() > 0 ==> r.0@ == requested@ && r.1@.len() == 0,
        requested@.len() == 0 ==> r.0@ == enabled@ && r.1@ == disabled@,
{
    if requested.len() > 0 {
        (requested, Vec::new())
    } else {
        (enabled, disabled)
    }
}

/// The token context shown at the start: none used out of the compaction
/// threshold, when there is one.
pub fn initial_token_context(threshold: u64) -> (r: Option<(u64, u64)>)
    ensures
        threshold > 0 ==> r == Some((0u64, threshold)),
        threshold == 0 ==> r is None,
{
    if threshold > 0 {
        Some((0, threshold))
    } else {
        None
    }
}

} // verus!

//! The server: what hosts are sent of the events of the core, what their answers and
//! requests ask of it, and who may ask.

use crate::protocol::event::EventFrame;
use crate::protocol::id::{ThreadId, TurnId};
use crate::protocol::op::{Op, TurnSettings, UserInput};
use crate::protocol::server_message::{ClientResponse, ServerNotification, ServerRequest};
use crate::protocol::thread::CreateThreadRequest;
use crate::text;
use vstd::prelude::*;

verus! {

/// The thread and the turn of events that do not name them.
#[derive(Debug, Clone)]
pub struct TranslationContext {
    pub thread_id: ThreadId,
    pub turn_id: TurnId,
    pub approval_id: Option<String>,
}

/// A message of the server: something to know, or something to answer.
#[derive(Debug, Clone)]
pub enum ServerMessage {
    Notification(ServerNotification),
    Request(ServerRequest),
}

/// What a host is told of an event, where that needs no answer.
pub open spec fn notification(event: EventFrame, ctx: TranslationContext) -> Option<
    ServerNotification,
> {
    match event {
        EventFrame::TurnStarted { thread_id, turn_id, user_input } => Some(
            ServerNotification::TurnStarted { thread_id, turn_id, user_input },
        ),
        EventFrame::AssistantMessageDelta { delta, .. } => Some(
            ServerNotification::AssistantDelta {
                thread_id: ctx.thread_id,
                turn_id: ctx.turn_id,
                delta,
            },
        ),
        EventFrame::TurnCompleted { .. } => Some(
            ServerNotification::TurnCompleted { thread_id: ctx.thread_id, turn_id: ctx.turn_id },
        ),
        EventFrame::TurnFailed { error, .. } => Some(
            ServerNotification::TurnFailed {
                thread_id: ctx.thread_id,
                turn_id: ctx.turn_id,
                error,
            },
        ),
        EventFrame::ToolCallCompleted { tool_name, success, .. } => Some(
            ServerNotification::ToolCallCompleted {
                thread_id: ctx.thread_id,
                turn_id: ctx.turn_id,
                tool_name,
                success,
            },
        ),
        _ => None,
    }
}

/// Translates an event for hosts. An event that asks for an approval becomes a request
/// under the id of the approval, or under that of the call where none is known; events
/// that hosts are not told of become nothing.
pub fn event_to_server_message(event: &EventFrame, ctx: &TranslationContext) -> (r: Option<
    ServerMessage,
>)
    ensures
        match *event {
            EventFrame::ToolCallRequiresApproval { call_id, tool_name, reason, .. } => r matches Some(
                ServerMessage::Request(
                    ServerRequest::ApprovalNeeded {
                        thread_id,
                        turn_id,
                        approval_id,
                        tool_name: t,
                        reason: w,
                    },
                ),
            ) && thread_id == ctx.thread_id && turn_id == ctx.turn_id && approval_id@ == (
            match ctx.approval_id {
                Some(a) => a@,
                None => call_id@,
            }) && t == tool_name && w == reason,
            _ => match notification(*event, *ctx) {
                Some(n) => r == Some(ServerMessage::Notification(n)),
                None => r is None,
            },
        },
{
    match event {
        EventFrame::TurnStarted { thread_id, turn_id, user_input } => Some(
            ServerMessage::Notification(
                ServerNotification::TurnStarted {
                    thread_id: thread_id.clone(),
                    turn_id: turn_id.clone(),
                    user_input: user_input.clone(),
                },
            ),
        ),
        EventFrame::AssistantMessageDelta { delta, .. } => Some(
            ServerMessage::Notification(
                ServerNotification::AssistantDelta {
                    thread_id: ctx.thread_id.clone(),
                    turn_id: ctx.turn_id.clone(),
                    delta: delta.clone(),
                },
            ),
        ),
        EventFrame::TurnCompleted { .. } => Some(
            ServerMessage::Notification(
                ServerNotification::TurnCompleted {
                    thread_id: ctx.thread_id.clone(),
                    turn_id: ctx.turn_id.clone(),
                },
            ),
        ),
        EventFrame::TurnFailed { error, .. } => Some(
            ServerMessage::Notification(
                ServerNotification::TurnFailed {
                    thread_id: ctx.thread_id.clone(),
                    turn_id: ctx.turn_id.clone(),
                    error: error.clone(),
                },
            ),
        ),
        EventFrame::ToolCallRequiresApproval { call_id, tool_name, reason, .. } => Some(
            ServerMessage::Request(
                ServerRequest::ApprovalNeeded {
                    thread_id: ctx.thread_id.clone(),
                    turn_id: ctx.turn_id.clone(),
                    approval_id: match &ctx.approval_id {
                        Some(a) => a.clone(),
                        None => call_id.to_string(),
                    },
                    tool_name: tool_name.clone(),
                    reason: reason.clone(),
                },
            ),
        ),
        EventFrame::ToolCallCompleted { tool_name, success, .. } => Some(
            ServerMessage::Notification(
                ServerNotification::ToolCallCompleted {
                    thread_id: ctx.thread_id.clone(),
                    turn_id: ctx.turn_id.clone(),
                    tool_name: tool_name.clone(),
                    success: *success,
                },
            ),
        ),
        _ => None,
    }
}

/// The operation that the answer of a client asks for.
pub fn client_response_to_op(response: &ClientResponse) -> (r: Op)
    ensures
        match *response {
            ClientResponse::ApprovalDecision { thread_id, approval_id, approved } => r == (
            Op::ApprovalDecision { thread_id, approval_id, approved }),
        },
{
    match response {
        ClientResponse::ApprovalDecision { thread_id, approval_id, approved } => {
            Op::ApprovalDecision {
                thread_id: thread_id.clone(),
                approval_id: approval_id.clone(),
                approved: *approved,
            }
        },
    }
}

/// Whether a request may pass: every one where no token is set, else those that carry it
/// as a bearer token.
pub fn is_authorized(expected: Option<&str>, header: Option<&str>) -> (r: bool)
    ensures
        r == match expected {
            None => true,
            Some(t) => header matches Some(h) && h@ == "Bearer "@ + t@,
        },
{
    match expected {
        None => true,
        Some(t) => match header {
            Some(h) => match text::strip_prefix(h, "Bearer ") {
                Some(token) => {
                    assert(h@ =~= "Bearer "@ + token@);
                    assert(token@ =~= h@.skip("Bearer "@.len() as int));
                    proof {
                        if h@ == "Bearer "@ + t@ {
                            assert(h@.skip("Bearer "@.len() as int) =~= t@);
                        }
                    }
                    text::str_eq(token, t)
                },
                None => {
                    proof {
                        if h@ == "Bearer "@ + t@ {
                            assert(h@.take("Bearer "@.len() as int) =~= "Bearer "@);
                            assert("Bearer "@.is_prefix_of(h@));
                        }
                    }
                    false
                },
            },
            None => false,
        },
    }
}

/// The thread that the body of a request asks for.
pub fn thread_request(workspace: String, model: Option<String>, name: Option<String>) -> (r:
    CreateThreadRequest)
    ensures
        r == (CreateThreadRequest {
            workspace,
            model,
            model_provider: None,
            name,
            approval_policy: None,
            sandbox: None,
            parent_thread_id: None,
            ephemeral: false,
        }),
{
    CreateThreadRequest {
        workspace,
        model,
        model_provider: None,
        name,
        approval_policy: None,
        sandbox: None,
        parent_thread_id: None,
        ephemeral: false,
    }
}

/// The operation that the body of a request for a turn asks for: one text, and the model
/// where one is named.
pub fn turn_op(thread_id: ThreadId, input: String, model: Option<String>) -> (r: Op)
    ensures
        r matches Op::UserInput { thread_id: t, input: i, settings } && t == thread_id && i@
            == seq![UserInput::Text { text: input }] && settings == (TurnSettings {
            model,
            cwd: None,
            approval_policy: None,
            sandbox_policy: None,
            max_token_budget: None,
        }),
{
    let mut pieces: Vec<UserInput> = Vec::new();
    pieces.push(UserInput::Text { text: input });
    assert(pieces@ =~= seq![UserInput::Text { text: input }]);
    Op::UserInput {
        thread_id,
        input: pieces,
        settings: TurnSettings {
            model,
            cwd: None,
            approval_policy: None,
            sandbox_policy: None,
            max_token_budget: None,
        },
    }
}

/// Hosts never see a made-up identity: the thread and the turn of a notification are those
/// of the event or of the context.
pub proof fn law_identities_are_real(event: EventFrame, ctx: TranslationContext)
    ensures
        notification(event, ctx) matches Some(n) ==> match n {
            ServerNotification::TurnStarted { thread_id, turn_id, .. } => event matches EventFrame::TurnStarted {
                thread_id: t,
                turn_id: u,
                ..
            } && thread_id == t && turn_id == u,
            ServerNotification::AssistantDelta { thread_id, turn_id, .. } => thread_id
                == ctx.thread_id && turn_id == ctx.turn_id,
            ServerNotification::TurnCompleted { thread_id, turn_id } => thread_id == ctx.thread_id
                && turn_id == ctx.turn_id,
            ServerNotification::TurnFailed { thread_id, turn_id, .. } => thread_id == ctx.thread_id
                && turn_id == ctx.turn_id,
            ServerNotification::ToolCallCompleted { thread_id, turn_id, .. } => thread_id
                == ctx.thread_id && turn_id == ctx.turn_id,
            ServerNotification::Warning { .. } => false,
        },
{
}

/// Hosts are told the words of an event as they are: what the user said, each piece of the
/// answer, the error of a failed turn, and which tool ran with what success. Of other events
/// they are told nothing.
pub proof fn law_notifications_say_what_happened(event: EventFrame, ctx: TranslationContext)
    ensures
        event matches EventFrame::TurnStarted { user_input, .. } ==> (
        notification(event, ctx) matches Some(ServerNotification::TurnStarted { user_input: u, .. })
            && u == user_input),
        event matches EventFrame::AssistantMessageDelta { delta, .. } ==> (
        notification(event, ctx) matches Some(ServerNotification::AssistantDelta { delta: d, .. })
            && d == delta),
        event is TurnCompleted ==> (notification(event, ctx) matches Some(n)
            && n is TurnCompleted),
        event matches EventFrame::TurnFailed { error, .. } ==> (
        notification(event, ctx) matches Some(ServerNotification::TurnFailed { error: e, .. }) && e
            == error),
        event matches EventFrame::ToolCallCompleted { tool_name, success, .. } ==> (
        notification(event, ctx) matches Some(
            ServerNotification::ToolCallCompleted { tool_name: t, success: s, .. },
        ) && t == tool_name && s == success),
        !(event is TurnStarted) && !(event is AssistantMessageDelta) && !(event is TurnCompleted)
            && !(event is TurnFailed) && !(event is ToolCallCompleted) ==> notification(
            event,
            ctx,
        ) is None,
{
}

} // verus!

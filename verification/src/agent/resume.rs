//! How a turn goes on after a tool call was approved.

use super::config::{ResumeTurnRequest, RunTurnRequest};
use super::effect;
use super::effect::{EffectView, TurnEffect};
use super::preview;
use super::turn::{
    CallResultView, PendingCallView, PendingToolCall, ToolCallResult, TurnError, TurnErrorView,
};
use crate::context::request_compiler;
use crate::context::request_compiler::TurnRequestKind;
use crate::journal::{EntryView, JournalEntry};
use crate::json;
use crate::model;
use crate::protocol::event::{EventFrame, FrameView};
use crate::protocol::tool::OutputView;
use crate::protocol::turn::{ItemView, TurnItem};
use crate::text;
use vstd::prelude::*;

verus! {

/// What an approved tool came to.
pub struct ApprovedOutcome {
    pub success: bool,
    /// What hosts see of it.
    pub preview: Seq<char>,
    /// What the model sees of it.
    pub content: Seq<char>,
}

/// A tool that returned has succeeded, and hosts and the model see its preview. Of one
/// that failed hosts see the error as such, and the model its text.
pub open spec fn approved_outcome(o: Result<OutputView, Seq<char>>) -> ApprovedOutcome {
    match o {
        Ok(out) => ApprovedOutcome {
            success: true,
            preview: preview::output_preview(out),
            content: preview::output_preview(out),
        },
        Err(e) => ApprovedOutcome { success: false, preview: "error: "@ + e, content: e },
    }
}

/// Whether the outcome of a tool can be shown.
pub open spec fn can_show(o: Result<OutputView, Seq<char>>) -> bool {
    o matches Ok(out) ==> preview::has_preview(out)
}

/// The effects of an approved tool call: its result and the approval are recorded, it
/// is shown as completed, and a success is written to the journal with its output.
pub open spec fn resume_effects(
    request: ResumeTurnRequest,
    o: ApprovedOutcome,
) -> Seq<EffectView> {
    effect::recorded(
        request.recording,
        ItemView::ToolResult {
            call_id: request.call_id@,
            tool_name: request.tool_name@,
            output_preview: Some(o.preview),
            success: o.success,
        },
    ) + effect::recorded(
        request.recording,
        ItemView::ApprovalDecision { call_id: request.call_id@, approved: true },
    ) + effect::emitted(
        FrameView::ToolCallCompleted {
            turn_id: request.turn_id@,
            call_id: request.call_id@,
            tool_name: request.tool_name@,
            success: o.success,
            output_preview: Some(o.preview),
        },
    ) + if o.success {
        effect::appended(
            request.turn_id@,
            EntryView::ToolCallCompleted {
                call_id: request.call_id@,
                tool_name: request.tool_name@,
                success: true,
                output: Some(o.preview),
                output_preview: Some(o.preview),
            },
        )
    } else {
        Seq::empty()
    }
}

/// Starts to go on with a turn: the approval is shown to hosts, and the tool call is
/// the one that was approved.
pub fn begin_resume(request: &ResumeTurnRequest) -> (r: (Vec<TurnEffect>, PendingToolCall))
    ensures
        effect::effects(r.0@) == effect::emitted(
            FrameView::ToolCallApproved { turn_id: request.turn_id@, call_id: request.call_id@ },
        ),
        r.1@ == (PendingCallView {
            call_id: request.call_id@,
            tool_name: request.tool_name@,
            arguments: json::json_text(request.arguments),
        }),
{
    let mut out: Vec<TurnEffect> = Vec::new();
    assert(effect::effects(out@) =~= Seq::empty());
    effect::emit(
        &mut out,
        EventFrame::ToolCallApproved {
            turn_id: request.turn_id.clone(),
            call_id: request.call_id.clone(),
        },
    );
    assert(effect::effects(out@) =~= effect::emitted(
        FrameView::ToolCallApproved { turn_id: request.turn_id@, call_id: request.call_id@ },
    ));
    (
        out,
        PendingToolCall {
            call_id: request.call_id.clone(),
            tool_name: request.tool_name.clone(),
            arguments: request.arguments.clone(),
        },
    )
}

/// Goes on with a turn once the approved tool has run. The turn is run again on its
/// transcript with the result behind it; no input of the user is made up.
pub fn continue_after_approval(request: ResumeTurnRequest, result: Option<ToolCallResult>) -> (r:
    Result<(Vec<TurnEffect>, RunTurnRequest), TurnError>)
    requires
        result matches Some(res) ==> can_show(res@.output),
    ensures
        match result {
            None => r matches Err(e) && e@ == TurnErrorView::ProviderError(
                "tool execution produced no result"@,
            ),
            Some(res) => {
                let o = approved_outcome(res@.output);
                &&& r matches Ok((fx, next))
                &&& effect::effects(fx@) == resume_effects(request, o)
                &&& next.kind == TurnRequestKind::ApprovalResume
                &&& next.thread_id == request.thread_id
                &&& next.turn_id == request.turn_id
                &&& next.user_input@ == Seq::<char>::empty()
                &&& next.config == request.config
                &&& model::messages(next.conversation_history@) == model::messages(
                    request.transcript@,
                ).push(request_compiler::tool_message(o.content, request.call_id@))
                &&& next.reasoning_to_replay == request.reasoning_to_replay
                &&& !next.use_approval_store
                &&& next.recording == request.recording
            },
        },
{
    let res = match result {
        Some(res) => res,
        None => {
            return Err(
                TurnError::ProviderError(text::owned("tool execution produced no result")),
            );
        },
    };
    let ghost o = approved_outcome(res@.output);
    let (success, shown, content) = match &res.output {
        Ok(out) => {
            let p = preview::tool_output_preview(out);
            let c = p.clone();
            (true, p, c)
        },
        Err(e) => (false, text::cat("error: ", e.as_str()), e.clone()),
    };
    assert(success == o.success && shown@ == o.preview && content@ == o.content);
    let mut out: Vec<TurnEffect> = Vec::new();
    assert(effect::effects(out@) =~= Seq::empty());
    effect::record(
        &mut out,
        request.recording,
        TurnItem::ToolResult {
            call_id: request.call_id.clone(),
            tool_name: request.tool_name.clone(),
            output_preview: Some(shown.clone()),
            success,
        },
    );
    effect::record(
        &mut out,
        request.recording,
        TurnItem::ApprovalDecision { call_id: request.call_id.clone(), approved: true },
    );
    effect::emit(
        &mut out,
        EventFrame::ToolCallCompleted {
            turn_id: request.turn_id.clone(),
            call_id: request.call_id.clone(),
            tool_name: request.tool_name.clone(),
            success,
            output_preview: Some(shown.clone()),
        },
    );
    if success {
        effect::append(
            &mut out,
            request.turn_id.clone(),
            JournalEntry::ToolCallCompleted {
                call_id: request.call_id.clone(),
                tool_name: request.tool_name.clone(),
                success: true,
                output: Some(shown.clone()),
                output_preview: Some(shown),
            },
        );
    }
    assert(effect::effects(out@) =~= resume_effects(request, o));
    let mut history = request.transcript;
    let m = request_compiler::tool_result_message(content, request.call_id.to_string());
    history.push(m);
    assert(model::messages(history@) =~= model::messages(request.transcript@).push(m@));
    Ok(
        (
            out,
            RunTurnRequest {
                kind: TurnRequestKind::ApprovalResume,
                thread_id: request.thread_id,
                turn_id: request.turn_id,
                user_input: String::new(),
                config: request.config,
                conversation_history: history,
                reasoning_to_replay: request.reasoning_to_replay,
                use_approval_store: false,
                recording: request.recording,
            },
        ),
    )
}

/// The model sees what an approved tool returned: its text itself where that has at most 200
/// bytes, its beginning and three dots where it is longer, and `ok` where there is none. Hosts
/// see the same. Of a tool that failed the model sees the error, and hosts see it marked as
/// one.
pub proof fn law_model_sees_the_result(o: Result<OutputView, Seq<char>>)
    ensures
        ({
            let r = approved_outcome(o);
            &&& match o {
                Ok(OutputView::Function { body: Some(b), .. }) => r.success && r.preview
                    == r.content && (vstd::utf8::encode_utf8(b).len() <= 200 ==> r.content == b)
                    && (vstd::utf8::encode_utf8(b).len() > 200 ==> r.content
                    == vstd::utf8::decode_utf8(vstd::utf8::encode_utf8(b).take(200)) + "..."@),
                Ok(OutputView::Mcp { result }) => r.success && r.preview == r.content && (
                vstd::utf8::encode_utf8(result).len() <= 200 ==> r.content == result) && (
                vstd::utf8::encode_utf8(result).len() > 200 ==> r.content
                    == vstd::utf8::decode_utf8(vstd::utf8::encode_utf8(result).take(200))
                    + "..."@),
                Ok(OutputView::Function { body: None, .. }) => r.success && r.content == "ok"@
                    && r.preview == "ok"@,
                Err(e) => !r.success && r.content == e && r.preview == "error: "@ + e,
            }
        }),
{
}

/// The result of an approved tool is told: it and the approval are recorded where a
/// transcript is kept, and the journal gets it as hosts see it and, of a success, with the
/// name of the tool and its output.
pub proof fn law_approved_result_is_told(
    request: ResumeTurnRequest,
    o: Result<OutputView, Seq<char>>,
)
    ensures
        ({
            let r = approved_outcome(o);
            let fx = resume_effects(request, r);
            let k = if request.recording {
                2int
            } else {
                0
            };
            &&& fx.len() == k + 1 + (if o is Ok {
                1int
            } else {
                0
            })
            &&& request.recording ==> fx[0] == EffectView::Record(
                ItemView::ToolResult {
                    call_id: request.call_id@,
                    tool_name: request.tool_name@,
                    output_preview: Some(r.preview),
                    success: o is Ok,
                },
            ) && fx[1] == EffectView::Record(
                ItemView::ApprovalDecision { call_id: request.call_id@, approved: true },
            )
            &&& fx[k] == (EffectView::Append {
                turn_id: request.turn_id@,
                entry: EntryView::ToolCallCompleted {
                    call_id: request.call_id@,
                    tool_name: Seq::empty(),
                    success: o is Ok,
                    output: Some(r.preview),
                    output_preview: Some(r.preview),
                },
            })
            &&& o is Ok ==> fx[k + 1] == (EffectView::Append {
                turn_id: request.turn_id@,
                entry: EntryView::ToolCallCompleted {
                    call_id: request.call_id@,
                    tool_name: request.tool_name@,
                    success: true,
                    output: Some(r.preview),
                    output_preview: Some(r.preview),
                },
            })
        }),
{
}

/// A turn that goes on after an approval goes on from its transcript: nothing of it changes,
/// and behind it stands one message of the tool, under the id of the call, with what the
/// model is to see.
pub proof fn law_turn_goes_on_from_its_transcript(
    transcript: Seq<crate::model::MessageView>,
    content: Seq<char>,
    call_id: Seq<char>,
)
    ensures
        ({
            let next = transcript.push(request_compiler::tool_message(content, call_id));
            &&& next.drop_last() == transcript
            &&& next.last().role == crate::model::MessageRole::Tool
            &&& next.last().tool_call_id == Some(call_id)
            &&& next.last().content == Some(content)
            &&& next.last().tool_calls.len() == 0
            &&& next.last().reasoning_content is None
        }),
{
    assert(transcript.push(request_compiler::tool_message(content, call_id)).drop_last()
        =~= transcript);
}

} // verus!

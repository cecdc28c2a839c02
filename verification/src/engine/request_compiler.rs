//! Compilation of the messages of a turn from the settings of the turn and the journal.

use crate::agent::config::TurnConfig;
use crate::context::assembly::ContextFragment;
use crate::context::compaction;
use crate::context::request_compiler;
use crate::context::request_compiler::{CompileConfig, RequestCompiler};
use crate::journal;
use crate::journal::{EntryView, JournalEntry, JournalRecord, RecordView};
use crate::model;
use crate::model::{MessageRole, MessageView, ModelMessage};
use crate::protocol::id::TurnId;
use crate::text;
use vstd::prelude::*;

verus! {

/// The compiler of the messages of a turn.
#[derive(Debug)]
pub struct EngineRequestCompiler {
    inner: RequestCompiler,
}

/// What stands before the conversation of a turn: the system prompt, then the fragments.
pub open spec fn head_of(config: TurnConfig, fragments: Seq<ContextFragment>) -> Seq<MessageView> {
    let first = match config.system_prompt {
        Some(sys) => seq![compaction::plain(MessageRole::System, sys@)],
        None => Seq::empty(),
    };
    first + request_compiler::fragment_messages(fragments)
}

/// The message that a record of a turn stands for.
pub open spec fn spoken(r: RecordView, turn_id: Seq<char>) -> Option<MessageView> {
    if r.turn_id != turn_id {
        None
    } else {
        match r.entry {
            EntryView::TurnStarted { user_input } => Some(
                compaction::plain(MessageRole::User, user_input),
            ),
            EntryView::AssistantDelta { delta, .. } => Some(
                compaction::plain(MessageRole::Assistant, delta),
            ),
            _ => None,
        }
    }
}

/// The messages that the journal tells of a turn: what the user said and each piece of
/// the answer.
pub open spec fn journal_transcript(log: Seq<RecordView>, turn_id: Seq<char>) -> Seq<MessageView>
    decreases log.len(),
{
    if log.len() == 0 {
        Seq::empty()
    } else {
        match spoken(log.last(), turn_id) {
            Some(m) => journal_transcript(log.drop_last(), turn_id).push(m),
            None => journal_transcript(log.drop_last(), turn_id),
        }
    }
}

fn compile_config<'a>(config: &'a TurnConfig, fragments: &'a [ContextFragment]) -> (r:
    CompileConfig<'a>)
    ensures
        r.head() == head_of(*config, fragments@),
{
    CompileConfig {
        system_prompt: match &config.system_prompt {
            Some(s) => Some(s.as_str()),
            None => None,
        },
        fragments,
        tools: Vec::new(),
        max_output_tokens: config.max_output_tokens,
        model: config.model.as_str(),
        reasoning_to_replay: None,
    }
}

impl EngineRequestCompiler {
    pub fn new() -> Self {
        EngineRequestCompiler { inner: RequestCompiler }
    }

    /// The messages of a new turn.
    pub fn compile_new_turn(
        &self,
        config: &TurnConfig,
        fragments: &[ContextFragment],
        history: &[ModelMessage],
        user_input: &str,
    ) -> (r: Vec<ModelMessage>)
        ensures
            model::messages(r@) == (head_of(*config, fragments@) + model::messages(
                history@,
            )).push(compaction::plain(MessageRole::User, user_input@)),
    {
        RequestCompiler::compile_new_turn(
            &compile_config(config, fragments),
            history,
            user_input,
        ).request.messages
    }

    /// The messages of a turn that goes on with a transcript.
    pub fn compile_tool_continuation(
        &self,
        config: &TurnConfig,
        fragments: &[ContextFragment],
        transcript: &[ModelMessage],
    ) -> (r: Vec<ModelMessage>)
        ensures
            model::messages(r@) == head_of(*config, fragments@) + model::messages(transcript@),
    {
        RequestCompiler::compile_tool_continuation(
            &compile_config(config, fragments),
            transcript,
        ).request.messages
    }

    /// The messages of a turn that resumes from what the journal tells of it. A journal
    /// that cannot be read tells nothing.
    pub fn compile_approval_resume(
        &self,
        config: &TurnConfig,
        fragments: &[ContextFragment],
        log: Option<&Vec<JournalRecord>>,
        turn_id: &TurnId,
    ) -> (r: Vec<ModelMessage>)
        ensures
            model::messages(r@) == head_of(*config, fragments@) + (match log {
                Some(v) => journal_transcript(journal::records(v@), turn_id@),
                None => Seq::empty(),
            }),
    {
        let transcript = match log {
            Some(v) => transcript_of(v, turn_id),
            None => Vec::new(),
        };
        assert(log is None ==> model::messages(transcript@) =~= Seq::<MessageView>::empty());
        self.compile_tool_continuation(config, fragments, transcript.as_slice())
    }
}

fn transcript_of(log: &Vec<JournalRecord>, turn_id: &TurnId) -> (r: Vec<ModelMessage>)
    ensures
        model::messages(r@) == journal_transcript(journal::records(log@), turn_id@),
{
    let ghost all = journal::records(log@);
    let mut out: Vec<ModelMessage> = Vec::new();
    let mut i: usize = 0;
    assert(all.take(0) =~= Seq::empty());
    assert(model::messages(out@) =~= Seq::<MessageView>::empty());
    while i < log.len()
        invariant
            i <= log.len(),
            all == journal::records(log@),
            model::messages(out@) == journal_transcript(all.take(i as int), turn_id@),
        decreases log.len() - i,
    {
        assert(all.take(i + 1).drop_last() =~= all.take(i as int));
        assert(all.take(i + 1).last() == log@[i as int]@);
        if text::str_eq(log[i].turn_id.as_str(), turn_id.as_str()) {
            let m = match &log[i].entry {
                JournalEntry::TurnStarted { user_input } => Some(
                    compaction::plain_message(MessageRole::User, user_input.clone()),
                ),
                JournalEntry::AssistantDelta { delta, .. } => Some(
                    compaction::plain_message(MessageRole::Assistant, delta.clone()),
                ),
                _ => None,
            };
            if let Some(m) = m {
                let ghost prior = out@;
                out.push(m);
                assert(model::messages(out@) =~= model::messages(prior).push(m@));
            }
        }
        i = i + 1;
    }
    assert(all.take(i as int) =~= all);
    out
}

impl Default for EngineRequestCompiler {
    fn default() -> Self {
        EngineRequestCompiler::new()
    }
}

/// What stands before the conversation begins with the system prompt, word for word, where
/// there is one; the fragments follow.
pub proof fn law_head_begins_with_the_prompt(config: TurnConfig, fragments: Seq<ContextFragment>)
    ensures
        config.system_prompt matches Some(s) ==> {
            let h = head_of(config, fragments);
            &&& h.len() == 1 + request_compiler::fragment_messages(fragments).len()
            &&& h[0].role is System
            &&& h[0].content == Some(s@)
            &&& h[0].tool_calls.len() == 0
            &&& h[0].tool_call_id is None
            &&& h[0].reasoning_content is None
            &&& h.skip(1) == request_compiler::fragment_messages(fragments)
        },
        config.system_prompt is None ==> head_of(config, fragments)
            == request_compiler::fragment_messages(fragments),
{
    let f = request_compiler::fragment_messages(fragments);
    if config.system_prompt is Some {
        assert(head_of(config, fragments).skip(1) =~= f);
    } else {
        assert(head_of(config, fragments) =~= f);
    }
}

/// The journal is retold record by record: the words that started the turn as a message of
/// the user, each piece of the answer as one of the assistant, and nothing else; records of
/// other turns are left out.
pub proof fn law_journal_is_retold(log: Seq<RecordView>, r: RecordView, turn_id: Seq<char>)
    ensures
        journal_transcript(Seq::<RecordView>::empty(), turn_id).len() == 0,
        r.turn_id != turn_id ==> journal_transcript(log.push(r), turn_id) == journal_transcript(
            log,
            turn_id,
        ),
        !(r.entry is TurnStarted) && !(r.entry is AssistantDelta) ==> journal_transcript(
            log.push(r),
            turn_id,
        ) == journal_transcript(log, turn_id),
        r.turn_id == turn_id && (r.entry is TurnStarted || r.entry is AssistantDelta)
            ==> journal_transcript(log.push(r), turn_id).len() == journal_transcript(
            log,
            turn_id,
        ).len() + 1 && journal_transcript(log.push(r), turn_id).drop_last() == journal_transcript(
            log,
            turn_id,
        ),
        r.entry matches EntryView::TurnStarted { user_input } ==> r.turn_id == turn_id ==> {
            let m = journal_transcript(log.push(r), turn_id).last();
            m.role is User && m.content == Some(user_input) && m.tool_calls.len() == 0
                && m.tool_call_id is None && m.reasoning_content is None
        },
        r.entry matches EntryView::AssistantDelta { delta, .. } ==> r.turn_id == turn_id ==> {
            let m = journal_transcript(log.push(r), turn_id).last();
            m.role is Assistant && m.content == Some(delta) && m.tool_calls.len() == 0
                && m.tool_call_id is None && m.reasoning_content is None
        },
{
    assert(log.push(r).drop_last() =~= log);
    if spoken(r, turn_id) is Some {
        let t = journal_transcript(log, turn_id);
        assert(t.push(spoken(r, turn_id)->0).drop_last() =~= t);
    }
}

} // verus!

//! Submission of a turn: the decisions between the steps that touch the state store, the
//! journal, hooks, providers and the model. A job walks through its stages; each step
//! names the work to do, and what came of it decides the next one.

use super::error::{RuntimeError, RuntimeErrorView};
use super::records;
use super::records::TurnRecord;
use super::threads;
use super::threads::{ActiveThread, ActiveThreads, ActiveView};
use super::transcript;
use crate::agent::config::{ConfigView, RunTurnRequest, TurnConfig};
use crate::agent::turn::{ResultView, TurnError, TurnErrorView, TurnResult};
use crate::context::compaction;
use crate::context::manager::{ContextView, TruncationPolicy};
use crate::context::normalize;
use crate::context::request_compiler::TurnRequestKind;
use crate::engine::approval::{ApprovalCoordinator, PendingApproval, PendingView};
use crate::engine::turn_fsm::{MachineView, TurnState, TurnStateMachine};
use crate::hooks::{HookContext, HookPoint};
use crate::journal;
use crate::journal::{EntryView, JournalEntry, JournalRecord};
use crate::model;
use crate::model::{MessageRole, MessageView, ModelMessage};
use crate::policy::AgentMode;
use crate::protocol::id::{ThreadId, TurnId};
use crate::protocol::turn::{CreateTurnRequest, Turn, TurnStatus, TurnView};
use crate::text;
use vstd::prelude::*;
use vstd::string::*;

verus! {

/// The token budget of a turn.
pub const TURN_TOKEN_BUDGET: u64 = 100_000;

/// How many failed compactions in a row stop the automatic ones.
pub const MAX_COMPACTION_FAILURES: u32 = 3;

/// What the runtime settles for all turns: the model where a request names none, the
/// provider, and the mode of the agent.
#[derive(Debug)]
pub struct TurnDefaults {
    pub model: String,
    pub provider: String,
    pub mode: AgentMode,
}

/// The place of a job between two steps.
#[derive(Debug)]
pub enum JobStage {
    Persisting,
    Hooking,
    Starting { hook_context: String },
    Resolving { hook_context: String },
    Rendering { hook_context: String },
    Running,
    Updating { answer: String, at: i64 },
    Reading { answer: String, at: i64 },
    Completing { at: i64 },
    Parking { pending: PendingApproval },
    Failing,
    Ended,
}

/// The place of a job, over plain texts.
pub enum StageView {
    Persisting,
    Hooking,
    Starting { hook_context: Seq<char> },
    Resolving { hook_context: Seq<char> },
    Rendering { hook_context: Seq<char> },
    Running,
    Updating { answer: Seq<char>, at: i64 },
    Reading { answer: Seq<char>, at: i64 },
    Completing { at: i64 },
    Parking { pending: PendingView },
    Failing,
    Ended,
}

impl View for JobStage {
    type V = StageView;

    open spec fn view(&self) -> StageView {
        match *self {
            JobStage::Persisting => StageView::Persisting,
            JobStage::Hooking => StageView::Hooking,
            JobStage::Starting { hook_context } => StageView::Starting {
                hook_context: hook_context@,
            },
            JobStage::Resolving { hook_context } => StageView::Resolving {
                hook_context: hook_context@,
            },
            JobStage::Rendering { hook_context } => StageView::Rendering {
                hook_context: hook_context@,
            },
            JobStage::Running => StageView::Running,
            JobStage::Updating { answer, at } => StageView::Updating { answer: answer@, at },
            JobStage::Reading { answer, at } => StageView::Reading { answer: answer@, at },
            JobStage::Completing { at } => StageView::Completing { at },
            JobStage::Parking { pending } => StageView::Parking { pending: pending@ },
            JobStage::Failing => StageView::Failing,
            JobStage::Ended => StageView::Ended,
        }
    }
}

/// The work that a job asks for.
#[derive(Debug)]
pub enum JobStep {
    /// Store the turn.
    Persist { record: TurnRecord },
    /// Run the hooks of the prompt.
    RunHooks { context: HookContext },
    /// Append an entry to the journal of the turn.
    Append { entry: JournalEntry },
    /// Find the provider of a model.
    ResolveProvider { model: String },
    /// Render the skills for the prompt.
    RenderSkills,
    /// Run the turn.
    Run { request: RunTurnRequest },
    /// Set the stored status of the turn.
    UpdateStatus { status: &'static str, at: i64 },
    /// Read what the journal holds of the turn.
    ReadRecords,
    /// Write the settings of the turn as JSON.
    RenderConfig { config: TurnConfig },
    /// The turn is submitted. Where the history may be compacted, its load is given.
    Done { turn: Turn, load: Option<(u64, u64)> },
    /// The submission failed.
    Failed { error: RuntimeError },
}

/// A turn on its way.
#[derive(Debug)]
pub struct TurnJob {
    turn: Turn,
    model: String,
    workspace: String,
    max_output_tokens: Option<u64>,
    mode: AgentMode,
    stage: JobStage,
}

/// A turn on its way, over plain texts.
pub struct JobView {
    pub turn: TurnView,
    pub model: Seq<char>,
    pub workspace: Seq<char>,
    pub max_output_tokens: Option<u64>,
    pub mode: AgentMode,
    pub stage: StageView,
}

impl View for TurnJob {
    type V = JobView;

    closed spec fn view(&self) -> JobView {
        JobView {
            turn: self.turn@,
            model: self.model@,
            workspace: self.workspace@,
            max_output_tokens: self.max_output_tokens,
            mode: self.mode,
            stage: self.stage@,
        }
    }
}

impl JobView {
    /// The job at another stage.
    pub open spec fn at(self, stage: StageView) -> JobView {
        JobView { stage, ..self }
    }

    /// The settings that the turn runs with.
    pub open spec fn config(self, prompt: Option<Seq<char>>) -> ConfigView {
        ConfigView {
            model: self.model,
            max_output_tokens: self.max_output_tokens,
            token_budget: TURN_TOKEN_BUDGET,
            turn_timeout: None,
            agent_mode: self.mode,
            system_prompt: prompt,
            workspace: self.workspace,
        }
    }

    /// The approval that the turn waits for.
    pub open spec fn pending(
        self,
        approval_id: Seq<char>,
        call_id: Seq<char>,
        tool_name: Seq<char>,
        arguments: Seq<char>,
        config_json: Seq<char>,
    ) -> PendingView {
        PendingView {
            approval_id,
            thread_id: self.turn.thread_id,
            turn_id: self.turn.id,
            call_id,
            tool_name,
            arguments,
            model: self.model,
            workspace: self.workspace,
            config_json,
        }
    }
}

/// The model of a turn: that of the request, or that of the runtime.
pub open spec fn chosen_model(request: CreateTurnRequest, defaults: TurnDefaults) -> Seq<char> {
    match request.model {
        Some(m) => m@,
        None => defaults.model@,
    }
}

/// The turn that a request starts.
pub open spec fn started_turn(
    request: CreateTurnRequest,
    thread_id: Seq<char>,
    turn_id: Seq<char>,
    defaults: TurnDefaults,
    now: i64,
) -> TurnView {
    TurnView {
        id: turn_id,
        thread_id,
        status: TurnStatus::Started,
        user_input: request.input@,
        created_at: now,
        completed_at: None,
        model: Some(chosen_model(request, defaults)),
        model_provider: Some(defaults.provider@),
        parent_turn_id: match request.parent_turn_id {
            Some(t) => Some(t@),
            None => None,
        },
        parent_thread_id: None,
        subagent_id: text::opt_text(request.subagent_id),
    }
}

/// The threads with a turn in the slot of one of them.
pub open spec fn occupied(
    threads: Map<Seq<char>, ActiveView>,
    thread_id: Seq<char>,
    turn_id: Seq<char>,
) -> Map<Seq<char>, ActiveView> {
    if threads.dom().contains(thread_id) {
        threads.insert(
            thread_id,
            ActiveView { active_turn: Some(turn_id), ..threads[thread_id] },
        )
    } else {
        threads
    }
}

/// The threads after a turn ran in one of them: what the user said is in the history,
/// and the slot is free.
pub open spec fn settled(
    threads: Map<Seq<char>, ActiveView>,
    thread_id: Seq<char>,
    input: Seq<char>,
) -> Map<Seq<char>, ActiveView> {
    if threads.dom().contains(thread_id) {
        let t = threads[thread_id];
        threads.insert(
            thread_id,
            ActiveView {
                active_turn: None,
                machine: None,
                context: ContextView {
                    items: t.context.items.push(compaction::plain(MessageRole::User, input)),
                    ..t.context
                },
                ..t
            },
        )
    } else {
        threads
    }
}

/// The threads after the answer of a turn was taken into the history of one of them.
pub open spec fn answered(
    threads: Map<Seq<char>, ActiveView>,
    thread_id: Seq<char>,
    records: Option<Seq<journal::RecordView>>,
    answer: Seq<char>,
) -> Map<Seq<char>, ActiveView> {
    if threads.dom().contains(thread_id) {
        let t = threads[thread_id];
        threads.insert(
            thread_id,
            ActiveView { context: transcript::after_turn(t.context, records, answer), ..t },
        )
    } else {
        threads
    }
}

/// How full the history of a thread is, where it may be compacted by itself.
pub open spec fn compactable_load(threads: Map<Seq<char>, ActiveView>, thread_id: Seq<char>) -> Option<
    (u64, u64),
> {
    if threads.dom().contains(thread_id) && threads[thread_id].tracker.allows(
        MAX_COMPACTION_FAILURES,
    ) {
        threads[thread_id].context.load()
    } else {
        None
    }
}

/// The history that a turn starts from; empty where the thread is gone.
pub open spec fn prompt_history(threads: Map<Seq<char>, ActiveView>, thread_id: Seq<char>) -> Seq<
    MessageView,
> {
    if threads.dom().contains(thread_id) {
        normalize::normalized(threads[thread_id].context.items)
    } else {
        Seq::empty()
    }
}

/// The prompt that hooks and skills make up; `None` where both are empty.
pub open spec fn augmented_prompt(hook_context: Seq<char>, skills: Seq<char>) -> Option<Seq<char>> {
    let hooked = if hook_context.len() > 0 {
        "\n\n<system-reminder>\n"@ + hook_context + "\n</system-reminder>"@
    } else {
        Seq::empty()
    };
    if skills.len() > 0 {
        Some(hooked + "\n\n<available-skills>\n"@ + skills + "\n</available-skills>"@)
    } else if hook_context.len() > 0 {
        Some(hooked)
    } else {
        None
    }
}

fn build_prompt(hook_context: &str, skills: &str) -> (r: Option<String>)
    ensures
        text::opt_text(r) == augmented_prompt(hook_context@, skills@),
{
    proof {
        reveal_strlit("");
        assert(""@ =~= Seq::empty());
    }
    let hooked = if !text::str_eq(hook_context, "") {
        assert(hook_context@.len() > 0) by {
            if hook_context@.len() == 0 {
                assert(hook_context@ =~= ""@);
            }
        }
        text::cat3("\n\n<system-reminder>\n", hook_context, "\n</system-reminder>")
    } else {
        text::owned("")
    };
    if !text::str_eq(skills, "") {
        assert(skills@.len() > 0) by {
            if skills@.len() == 0 {
                assert(skills@ =~= ""@);
            }
        }
        let head = text::cat(hooked.as_str(), "\n\n<available-skills>\n");
        Some(text::cat3(head.as_str(), skills, "\n</available-skills>"))
    } else if !text::str_eq(hook_context, "") {
        Some(hooked)
    } else {
        None
    }
}

/// The error of a journal that cannot be written to.
pub open spec fn journal_error(e: Seq<char>) -> RuntimeErrorView {
    RuntimeErrorView::State("journal append failed: "@ + e)
}

/// What a hook of the prompt is told.
pub open spec fn is_prompt_context(c: HookContext, turn: TurnView) -> bool {
    &&& c.hook_point == HookPoint::UserPromptSubmitted
    &&& c.thread_id matches Some(t) && t@ == turn.thread_id
    &&& c.turn_id matches Some(t) && t@ == turn.id
    &&& c.tool_name is None
    &&& c.tool_call_id is None
    &&& text::opt_text(c.data) == Some(turn.user_input)
    &&& c.approved is None
}

/// What a turn is run with.
pub open spec fn is_run_request(
    r: RunTurnRequest,
    job: JobView,
    prompt: Option<Seq<char>>,
    threads: Map<Seq<char>, ActiveView>,
) -> bool {
    &&& r.kind == TurnRequestKind::NewTurn
    &&& r.thread_id@ == job.turn.thread_id
    &&& r.turn_id@ == job.turn.id
    &&& r.user_input@ == job.turn.user_input
    &&& r.config@ == job.config(prompt)
    &&& model::messages(r.conversation_history@) == prompt_history(threads, job.turn.thread_id)
    &&& r.reasoning_to_replay is None
    &&& r.use_approval_store == threads.dom().contains(job.turn.thread_id)
    &&& !r.recording
}

/// The failure of a job.
pub open spec fn is_failure(step: JobStep, e: RuntimeErrorView) -> bool {
    step matches JobStep::Failed { error } && error@ == e
}

/// The end of a job.
pub open spec fn is_done(step: JobStep, turn: TurnView, load: Option<(u64, u64)>) -> bool {
    step matches JobStep::Done { turn: t, load: l } && t@ == turn && l == load
}

/// An approval is kept besides those that were waiting.
pub open spec fn keeps_pending(
    before: &ApprovalCoordinator,
    after: &ApprovalCoordinator,
    p: PendingView,
) -> bool {
    &&& after.waiting().dom().contains(p.approval_id)
    &&& after.waiting()[p.approval_id]@ == p
    &&& after.waiting() == before.waiting().insert(p.approval_id, after.waiting()[p.approval_id])
}

/// An entry for the journal.
pub open spec fn is_append(step: JobStep, e: EntryView) -> bool {
    step matches JobStep::Append { entry } && entry@ == e
}

/// What becomes of a job once its start was written to the journal, or could not be.
pub open spec fn is_after_start(
    before: JobView,
    after: JobView,
    step: JobStep,
    written: Result<(), String>,
) -> bool {
    match written {
        Ok(_) => after == before.at(
            StageView::Resolving { hook_context: before.stage->Starting_hook_context },
        ) && (step matches JobStep::ResolveProvider { model } && model@ == before.model),
        Err(e) => after == before.at(StageView::Ended) && is_failure(step, journal_error(e@)),
    }
}

/// What becomes of a job once the end of its completed turn was written to the journal, or
/// could not be.
pub open spec fn is_after_completion(
    before: JobView,
    after: JobView,
    step: JobStep,
    threads: Map<Seq<char>, ActiveView>,
    written: Result<(), String>,
) -> bool {
    &&& after == before.at(StageView::Ended)
    &&& match written {
        Ok(_) => is_done(
            step,
            TurnView {
                status: TurnStatus::Completed,
                completed_at: Some(before.stage->Completing_at),
                ..before.turn
            },
            compactable_load(threads, before.turn.thread_id),
        ),
        Err(e) => is_failure(step, journal_error(e@)),
    }
}

/// What becomes of a job once the failure of its turn was written to the journal, or could
/// not be.
pub open spec fn is_after_failure(
    before: JobView,
    after: JobView,
    step: JobStep,
    written: Result<(), String>,
) -> bool {
    &&& after == before.at(StageView::Ended)
    &&& match written {
        Ok(_) => is_done(
            step,
            TurnView {
                status: TurnStatus::Failed,
                completed_at: before.turn.completed_at,
                ..before.turn
            },
            None,
        ),
        Err(e) => is_failure(step, journal_error(e@)),
    }
}

/// The state machine of a turn that was just started.
pub open spec fn started_machine(
    thread_id: Seq<char>,
    turn_id: Seq<char>,
    input: Seq<char>,
) -> MachineView {
    MachineView { thread_id, turn_id, state: TurnState::Started, user_input: input }
}

impl TurnJob {
    /// Begins a turn on a thread: the thread must be there and have no active turn, and
    /// the turn takes its slot. A turn that is refused changes nothing.
    pub fn begin(
        threads: &mut ActiveThreads,
        thread_id: &ThreadId,
        turn_id: TurnId,
        request: CreateTurnRequest,
        defaults: &TurnDefaults,
        now: i64,
    ) -> (r: Result<(TurnJob, JobStep), RuntimeError>)
        requires
            old(threads).wf(),
        ensures
            final(threads).wf(),
            if !old(threads)@.dom().contains(thread_id@) {
                r matches Err(e) && e@ == RuntimeErrorView::ThreadNotFound(thread_id@) && final(threads)@ == old(threads)@
            } else if old(threads)@[thread_id@].active_turn is Some {
                r matches Err(e) && e@ == RuntimeErrorView::InvalidTransition(
                    "thread already has an active turn"@,
                ) && final(threads)@ == old(threads)@
            } else {
                let t = old(threads)@[thread_id@];
                let turn = started_turn(request, thread_id@, turn_id@, *defaults, now);
                r matches Ok((job, step)) && final(threads)@ == old(threads)@.insert(
                    thread_id@,
                    ActiveView {
                        active_turn: Some(turn_id@),
                        machine: Some(started_machine(thread_id@, turn_id@, request.input@)),
                        ..t
                    },
                ) && job@ == (JobView {
                    turn,
                    model: chosen_model(request, *defaults),
                    workspace: t.thread.cwd,
                    max_output_tokens: request.max_token_budget,
                    mode: defaults.mode,
                    stage: StageView::Persisting,
                }) && (step matches JobStep::Persist { record } && record@
                    == records::turn_record_of(turn))
            },
    {
        let ghost before = threads@;
        match threads.get(thread_id) {
            None => {
                return Err(RuntimeError::ThreadNotFound(thread_id.clone()));
            },
            Some(t) => {
                if t.active_turn_id.is_some() {
                    return Err(
                        RuntimeError::InvalidTransition(
                            text::owned("thread already has an active turn"),
                        ),
                    );
                }
            },
        }
        let mut t = threads.take(thread_id).unwrap();
        let workspace = t.thread.cwd.clone();
        t.active_turn_id = Some(turn_id.clone());
        t.turn_fsm = Some(
            TurnStateMachine::new(thread_id.clone(), turn_id.clone(), request.input.clone()),
        );
        threads.put(thread_id, t);
        assert(threads@ =~= before.insert(
            thread_id@,
            ActiveView {
                active_turn: Some(turn_id@),
                machine: Some(started_machine(thread_id@, turn_id@, request.input@)),
                ..before[thread_id@]
            },
        ));
        let model = match request.model {
            Some(m) => m,
            None => defaults.model.clone(),
        };
        let turn = Turn {
            id: turn_id,
            thread_id: thread_id.clone(),
            status: TurnStatus::Started,
            user_input: request.input,
            created_at: now,
            completed_at: None,
            model: Some(model.clone()),
            model_provider: Some(defaults.provider.clone()),
            parent_turn_id: request.parent_turn_id,
            parent_thread_id: None,
            subagent_id: request.subagent_id,
        };
        let record = records::persist_turn(&turn);
        let job = TurnJob {
            turn,
            model,
            workspace,
            max_output_tokens: request.max_token_budget,
            mode: defaults.mode,
            stage: JobStage::Persisting,
        };
        Ok((job, JobStep::Persist { record }))
    }

    /// The turn was stored, or could not be: then its slot is freed.
    pub fn on_persisted(&mut self, threads: &mut ActiveThreads, stored: Result<(), String>) -> (r:
        JobStep)
        requires
            old(threads).wf(),
            old(self)@.stage is Persisting,
        ensures
            final(threads).wf(),
            match stored {
                Ok(_) => final(self)@ == old(self)@.at(StageView::Hooking) && final(threads)@
                    == old(threads)@ && (r matches JobStep::RunHooks { context }
                    && is_prompt_context(context, old(self)@.turn)),
                Err(e) => final(self)@ == old(self)@.at(StageView::Ended) && is_failure(
                    r,
                    RuntimeErrorView::State(e@),
                ) && final(threads)@ == threads::cleared(
                    old(threads)@,
                    old(self)@.turn.thread_id,
                    old(self)@.turn.id,
                ),
            },
    {
        match stored {
            Ok(_) => {
                self.stage = JobStage::Hooking;
                JobStep::RunHooks {
                    context: HookContext {
                        hook_point: HookPoint::UserPromptSubmitted,
                        thread_id: Some(self.turn.thread_id.clone()),
                        turn_id: Some(self.turn.id.clone()),
                        tool_name: None,
                        tool_call_id: None,
                        data: Some(self.turn.user_input.clone()),
                        approved: None,
                    },
                }
            },
            Err(e) => {
                threads.clear_active_turn(&self.turn.thread_id, &self.turn.id);
                self.stage = JobStage::Ended;
                JobStep::Failed { error: RuntimeError::State(e) }
            },
        }
    }

    /// The hooks ran and gave a context for the prompt.
    pub fn on_hooks(&mut self, hook_context: String) -> (r: JobStep)
        requires
            old(self)@.stage is Hooking,
        ensures
            final(self)@ == old(self)@.at(StageView::Starting { hook_context: hook_context@ }),
            is_append(r, EntryView::TurnStarted { user_input: old(self)@.turn.user_input }),
    {
        self.stage = JobStage::Starting { hook_context };
        JobStep::Append {
            entry: JournalEntry::TurnStarted { user_input: self.turn.user_input.clone() },
        }
    }

    /// The start was written to the journal, or could not be.
    pub fn on_started(&mut self, written: Result<(), String>) -> (r: JobStep)
        requires
            old(self)@.stage is Starting,
        ensures
            is_after_start(old(self)@, final(self)@, r, written),
    {
        match written {
            Ok(_) => {
                let hook_context = match &self.stage {
                    JobStage::Starting { hook_context } => hook_context.clone(),
                    _ => String::new(),
                };
                self.stage = JobStage::Resolving { hook_context };
                JobStep::ResolveProvider { model: self.model.clone() }
            },
            Err(e) => {
                self.stage = JobStage::Ended;
                JobStep::Failed {
                    error: RuntimeError::State(text::cat("journal append failed: ", e.as_str())),
                }
            },
        }
    }

    /// A provider was found or not; without one the slot is freed.
    pub fn on_provider(&mut self, threads: &mut ActiveThreads, found: bool) -> (r: JobStep)
        requires
            old(threads).wf(),
            old(self)@.stage is Resolving,
        ensures
            final(threads).wf(),
            if found {
                final(self)@ == old(self)@.at(
                    StageView::Rendering { hook_context: old(self)@.stage->Resolving_hook_context },
                ) && final(threads)@ == old(threads)@ && r is RenderSkills
            } else {
                final(self)@ == old(self)@.at(StageView::Ended) && is_failure(
                    r,
                    RuntimeErrorView::NotReady(
                        "no provider for model '"@ + old(self)@.model + "'"@,
                    ),
                ) && final(threads)@ == threads::cleared(
                    old(threads)@,
                    old(self)@.turn.thread_id,
                    old(self)@.turn.id,
                )
            },
    {
        if found {
            let hook_context = match &self.stage {
                JobStage::Resolving { hook_context } => hook_context.clone(),
                _ => String::new(),
            };
            self.stage = JobStage::Rendering { hook_context };
            JobStep::RenderSkills
        } else {
            threads.clear_active_turn(&self.turn.thread_id, &self.turn.id);
            self.stage = JobStage::Ended;
            JobStep::Failed {
                error: RuntimeError::NotReady(
                    text::cat3("no provider for model '", self.model.as_str(), "'"),
                ),
            }
        }
    }

    fn config(&self, system_prompt: Option<String>) -> (r: TurnConfig)
        ensures
            r@ == self@.config(text::opt_text(system_prompt)),
    {
        TurnConfig {
            model: self.model.clone(),
            max_output_tokens: self.max_output_tokens,
            token_budget: TURN_TOKEN_BUDGET,
            turn_timeout: None,
            agent_mode: self.mode,
            system_prompt,
            workspace: self.workspace.clone(),
        }
    }

    /// The skills were rendered: the turn can run.
    pub fn on_skills(&mut self, threads: &ActiveThreads, skills: &str) -> (r: JobStep)
        requires
            threads.wf(),
            old(self)@.stage is Rendering,
        ensures
            final(self)@ == old(self)@.at(StageView::Running),
            r matches JobStep::Run { request } && is_run_request(
                request,
                old(self)@,
                augmented_prompt(old(self)@.stage->Rendering_hook_context, skills@),
                threads@,
            ),
    {
        let hook_context = match &self.stage {
            JobStage::Rendering { hook_context } => hook_context.clone(),
            _ => String::new(),
        };
        let prompt = build_prompt(hook_context.as_str(), skills);
        let (history, present): (Vec<ModelMessage>, bool) = match threads.get(
            &self.turn.thread_id,
        ) {
            Some(t) => (t.context_manager.for_prompt(), true),
            None => (Vec::new(), false),
        };
        assert(!present ==> model::messages(history@) =~= Seq::<MessageView>::empty());
        let config = self.config(prompt);
        self.stage = JobStage::Running;
        JobStep::Run {
            request: RunTurnRequest {
                kind: TurnRequestKind::NewTurn,
                thread_id: self.turn.thread_id.clone(),
                turn_id: self.turn.id.clone(),
                user_input: self.turn.user_input.clone(),
                config,
                conversation_history: history,
                reasoning_to_replay: None,
                use_approval_store: present,
                recording: false,
            },
        }
    }

    fn settle(&self, threads: &mut ActiveThreads)
        requires
            old(threads).wf(),
        ensures
            final(threads).wf(),
            final(threads)@ == settled(
                old(threads)@,
                self@.turn.thread_id,
                self@.turn.user_input,
            ),
    {
        let ghost before = threads@;
        if let Some(t) = threads.take(&self.turn.thread_id) {
            let mut t = t;
            let m = compaction::plain_message(MessageRole::User, self.turn.user_input.clone());
            let mut list: Vec<ModelMessage> = Vec::new();
            list.push(m);
            let ghost items = t.context_manager@.items;
            t.context_manager.record_items(list.as_slice(), TruncationPolicy::KeepAll);
            assert(items + model::messages(list@) =~= items.push(m@));
            t.active_turn_id = None;
            t.turn_fsm = None;
            threads.put(&self.turn.thread_id, t);
            assert(threads@ =~= settled(before, self@.turn.thread_id, self@.turn.user_input));
        } else {
            assert(threads@ =~= before);
        }
    }

    /// The turn ran: what the user said goes into the history, the slot is freed, and
    /// the result decides how the job ends.
    pub fn on_result(
        &mut self,
        threads: &mut ActiveThreads,
        result: Result<TurnResult, TurnError>,
        now: i64,
    ) -> (r: JobStep)
        requires
            old(threads).wf(),
            old(self)@.stage is Running,
        ensures
            final(threads).wf(),
            final(threads)@ == settled(
                old(threads)@,
                old(self)@.turn.thread_id,
                old(self)@.turn.user_input,
            ),
            match result {
                Ok(TurnResult::Completed { answer, .. }) => final(self)@ == old(self)@.at(
                    StageView::Updating { answer: answer@, at: now },
                ) && (r matches JobStep::UpdateStatus { status, at } && status@ == "completed"@
                    && at == now),
                Ok(TurnResult::NeedsApproval { call_id, tool_name, arguments, approval_id, .. }) =>
                final(self)@ == old(self)@.at(
                    StageView::Parking {
                        pending: old(self)@.pending(
                            approval_id@,
                            call_id@,
                            tool_name@,
                            crate::json::json_text(arguments),
                            Seq::empty(),
                        ),
                    },
                ) && (r matches JobStep::RenderConfig { config } && config@ == old(self)@.config(None)),
                Err(e) => final(self)@ == old(self)@.at(StageView::Failing) && is_append(
                    r,
                    EntryView::TurnFailed { error: e@.text() },
                ),
            },
    {
        self.settle(threads);
        match result {
            Ok(TurnResult::Completed { answer, .. }) => {
                self.stage = JobStage::Updating { answer, at: now };
                JobStep::UpdateStatus { status: "completed", at: now }
            },
            Ok(TurnResult::NeedsApproval { call_id, tool_name, arguments, approval_id, .. }) => {
                let pending = PendingApproval {
                    approval_id,
                    thread_id: self.turn.thread_id.clone(),
                    turn_id: self.turn.id.clone(),
                    call_id,
                    tool_name,
                    arguments,
                    model: self.model.clone(),
                    workspace: self.workspace.clone(),
                    config_json: String::new(),
                };
                let config = self.config(None);
                self.stage = JobStage::Parking { pending };
                JobStep::RenderConfig { config }
            },
            Err(e) => {
                self.stage = JobStage::Failing;
                JobStep::Append { entry: JournalEntry::TurnFailed { error: e.to_string() } }
            },
        }
    }

    /// The status of a completed turn was stored, or could not be.
    pub fn on_status(&mut self, stored: Result<(), String>) -> (r: JobStep)
        requires
            old(self)@.stage is Updating,
        ensures
            match stored {
                Ok(_) => final(self)@ == old(self)@.at(
                    StageView::Reading {
                        answer: old(self)@.stage->Updating_answer,
                        at: old(self)@.stage->Updating_at,
                    },
                ) && r is ReadRecords,
                Err(e) => final(self)@ == old(self)@.at(StageView::Ended) && is_failure(
                    r,
                    RuntimeErrorView::State(e@),
                ),
            },
    {
        match stored {
            Ok(_) => {
                let (answer, at): (String, i64) = match &self.stage {
                    JobStage::Updating { answer, at } => (answer.clone(), *at),
                    _ => (String::new(), 0),
                };
                self.stage = JobStage::Reading { answer, at };
                JobStep::ReadRecords
            },
            Err(e) => {
                self.stage = JobStage::Ended;
                JobStep::Failed { error: RuntimeError::State(e) }
            },
        }
    }

    /// The records of the turn were read, as far as they could be: the turn goes into
    /// the history of its thread.
    pub fn on_records(
        &mut self,
        threads: &mut ActiveThreads,
        stored: Option<Vec<JournalRecord>>,
    ) -> (r: JobStep)
        requires
            old(threads).wf(),
            old(self)@.stage is Reading,
            stored matches Some(v) ==> transcript::usage_fits(journal::records(v@)),
        ensures
            final(threads).wf(),
            final(self)@ == old(self)@.at(
                StageView::Completing { at: old(self)@.stage->Reading_at },
            ),
            final(threads)@ == answered(
                old(threads)@,
                old(self)@.turn.thread_id,
                transcript::opt_records(stored),
                old(self)@.stage->Reading_answer,
            ),
            is_append(r, EntryView::TurnCompleted),
    {
        let ghost before = threads@;
        let (answer, at): (String, i64) = match &self.stage {
            JobStage::Reading { answer, at } => (answer.clone(), *at),
            _ => (String::new(), 0),
        };
        if let Some(t) = threads.take(&self.turn.thread_id) {
            let mut t = t;
            transcript::record_turn(&mut t.context_manager, stored, answer.as_str());
            threads.put(&self.turn.thread_id, t);
            assert(threads@ =~= answered(
                before,
                self@.turn.thread_id,
                transcript::opt_records(stored),
                answer@,
            ));
        } else {
            assert(threads@ =~= before);
        }
        self.stage = JobStage::Completing { at };
        JobStep::Append { entry: JournalEntry::TurnCompleted }
    }

    fn ended_turn(&self, status: TurnStatus, completed_at: Option<i64>) -> (r: Turn)
        ensures
            r@ == (TurnView { status, completed_at, ..self@.turn }),
    {
        let t = self.turn.clone();
        Turn { status, completed_at, ..t }
    }

    /// The end of a completed turn was written to the journal, or could not be.
    pub fn on_completed(&mut self, threads: &ActiveThreads, written: Result<(), String>) -> (r:
        JobStep)
        requires
            threads.wf(),
            old(self)@.stage is Completing,
        ensures
            is_after_completion(old(self)@, final(self)@, r, threads@, written),
    {
        let at: i64 = match &self.stage {
            JobStage::Completing { at } => *at,
            _ => 0,
        };
        self.stage = JobStage::Ended;
        match written {
            Ok(_) => {
                let load: Option<(u64, u64)> = match threads.get(&self.turn.thread_id) {
                    Some(t) => if t.compaction_tracker.can_auto_compact(MAX_COMPACTION_FAILURES) {
                        t.context_manager.window_load()
                    } else {
                        None
                    },
                    None => None,
                };
                JobStep::Done { turn: self.ended_turn(TurnStatus::Completed, Some(at)), load }
            },
            Err(e) => JobStep::Failed {
                error: RuntimeError::State(text::cat("journal append failed: ", e.as_str())),
            },
        }
    }

    /// The settings of a turn that waits for an approval were written: the approval is
    /// kept, and the turn holds its slot again.
    pub fn on_config(
        &mut self,
        threads: &mut ActiveThreads,
        approvals: &mut ApprovalCoordinator,
        config_json: String,
    ) -> (r: JobStep)
        requires
            old(threads).wf(),
            old(approvals).wf(),
            old(self)@.stage is Parking,
        ensures
            final(threads).wf(),
            final(approvals).wf(),
            final(self)@ == old(self)@.at(StageView::Ended),
            final(threads)@ == occupied(
                old(threads)@,
                old(self)@.turn.thread_id,
                old(self)@.turn.id,
            ),
            keeps_pending(
                old(approvals),
                final(approvals),
                PendingView { config_json: config_json@, ..old(self)@.stage->pending },
            ),
            is_done(
                r,
                TurnView {
                    status: TurnStatus::WaitingForApproval,
                    completed_at: old(self)@.turn.completed_at,
                    ..old(self)@.turn
                },
                None,
            ),
    {
        let ghost before = threads@;
        if let JobStage::Parking { pending } = &self.stage {
            let mut p = pending.clone();
            p.config_json = config_json;
            approvals.register(p);
        }
        if let Some(t) = threads.take(&self.turn.thread_id) {
            let mut t = t;
            t.active_turn_id = Some(self.turn.id.clone());
            threads.put(&self.turn.thread_id, t);
            assert(threads@ =~= occupied(before, self@.turn.thread_id, self@.turn.id));
        } else {
            assert(threads@ =~= before);
        }
        self.stage = JobStage::Ended;
        let completed_at = self.turn.completed_at;
        JobStep::Done {
            turn: self.ended_turn(TurnStatus::WaitingForApproval, completed_at),
            load: None,
        }
    }

    /// The failure of a turn was written to the journal, or could not be.
    pub fn on_failed(&mut self, written: Result<(), String>) -> (r: JobStep)
        requires
            old(self)@.stage is Failing,
        ensures
            is_after_failure(old(self)@, final(self)@, r, written),
    {
        self.stage = JobStage::Ended;
        match written {
            Ok(_) => {
                let completed_at = self.turn.completed_at;
                JobStep::Done { turn: self.ended_turn(TurnStatus::Failed, completed_at), load: None }
            },
            Err(e) => JobStep::Failed {
                error: RuntimeError::State(text::cat("journal append failed: ", e.as_str())),
            },
        }
    }

    /// The entry that the job asked to append was written to the journal, or could not be:
    /// the start of the turn, its end, or its failure.
    pub fn on_appended(&mut self, threads: &ActiveThreads, written: Result<(), String>) -> (r:
        JobStep)
        requires
            threads.wf(),
            old(self)@.stage is Starting || old(self)@.stage is Completing || old(
                self,
            )@.stage is Failing,
        ensures
            match old(self)@.stage {
                StageView::Starting { .. } => is_after_start(
                    old(self)@,
                    final(self)@,
                    r,
                    written,
                ),
                StageView::Completing { .. } => is_after_completion(
                    old(self)@,
                    final(self)@,
                    r,
                    threads@,
                    written,
                ),
                _ => is_after_failure(old(self)@, final(self)@, r, written),
            },
    {
        match &self.stage {
            JobStage::Starting { .. } => self.on_started(written),
            JobStage::Completing { .. } => self.on_completed(threads, written),
            _ => self.on_failed(written),
        }
    }
}

/// A thread has one active turn: a slot that is taken is taken until the turn that holds
/// it is over, and freeing it for another turn changes nothing.
pub proof fn law_one_active_turn(
    threads: Map<Seq<char>, ActiveView>,
    thread_id: Seq<char>,
    turn_id: Seq<char>,
    other: Seq<char>,
    input: Seq<char>,
)
    requires
        threads.dom().contains(thread_id),
        other != turn_id,
    ensures
        occupied(threads, thread_id, turn_id)[thread_id].active_turn == Some(turn_id),
        threads::cleared(occupied(threads, thread_id, turn_id), thread_id, other) == occupied(
            threads,
            thread_id,
            turn_id,
        ),
        threads::cleared(
            occupied(threads, thread_id, turn_id),
            thread_id,
            turn_id,
        )[thread_id].active_turn is None,
        settled(threads, thread_id, input)[thread_id].active_turn is None,
{
}

/// What happens in one thread leaves the others alone.
pub proof fn law_threads_are_separate(
    threads: Map<Seq<char>, ActiveView>,
    thread_id: Seq<char>,
    turn_id: Seq<char>,
    input: Seq<char>,
    records: Option<Seq<journal::RecordView>>,
    other: Seq<char>,
)
    requires
        threads.dom().contains(other),
        other != thread_id,
    ensures
        occupied(threads, thread_id, turn_id)[other] == threads[other],
        threads::cleared(threads, thread_id, turn_id)[other] == threads[other],
        settled(threads, thread_id, input)[other] == threads[other],
        answered(threads, thread_id, records, input)[other] == threads[other],
{
}

/// The history of a thread keeps what was said: after a completed turn it holds, behind
/// what it held, the words of the user, the tools of the turn, and the answer.
pub proof fn law_history_grows(
    threads: Map<Seq<char>, ActiveView>,
    thread_id: Seq<char>,
    input: Seq<char>,
    records: Seq<journal::RecordView>,
    answer: Seq<char>,
)
    requires
        threads.dom().contains(thread_id),
    ensures
        answered(
            settled(threads, thread_id, input),
            thread_id,
            Some(records),
            answer,
        )[thread_id].context.items == (threads[thread_id].context.items.push(
            compaction::plain(MessageRole::User, input),
        ) + transcript::tool_messages(records)).push(
            compaction::plain(MessageRole::Assistant, answer),
        ),
{
}

/// A turn starts as it was asked for: with the words of the request, on its thread, under
/// its own id, with the model of the request or else that of the runtime, and unfinished.
pub proof fn law_turn_starts_as_asked(
    request: CreateTurnRequest,
    thread_id: Seq<char>,
    turn_id: Seq<char>,
    defaults: TurnDefaults,
    now: i64,
)
    ensures
        ({
            let t = started_turn(request, thread_id, turn_id, defaults, now);
            &&& t.id == turn_id
            &&& t.thread_id == thread_id
            &&& t.status is Started
            &&& t.user_input == request.input@
            &&& t.created_at == now
            &&& t.completed_at is None
            &&& request.model matches Some(m) ==> t.model == Some(m@)
            &&& request.model is None ==> t.model == Some(defaults.model@)
            &&& t.model_provider == Some(defaults.provider@)
            &&& request.parent_turn_id matches Some(p) ==> t.parent_turn_id == Some(p@)
            &&& request.parent_turn_id is None ==> t.parent_turn_id is None
            &&& t.parent_thread_id is None
            &&& request.subagent_id matches Some(s) ==> t.subagent_id == Some(s@)
            &&& request.subagent_id is None ==> t.subagent_id is None
        }),
        request.model matches Some(m) ==> chosen_model(request, defaults) == m@,
        request.model is None ==> chosen_model(request, defaults) == defaults.model@,
        ({
            let m = started_machine(thread_id, turn_id, request.input@);
            m.thread_id == thread_id && m.turn_id == turn_id && m.state is Started && m.user_input
                == request.input@
        }),
{
}

/// Once a turn ran, the words of the user are the last message of its thread, behind all
/// that was there, and the thread is free; nothing else of it changed.
pub proof fn law_words_of_the_user_are_kept(
    threads: Map<Seq<char>, ActiveView>,
    thread_id: Seq<char>,
    input: Seq<char>,
)
    requires
        threads.dom().contains(thread_id),
    ensures
        ({
            let t = threads[thread_id];
            let s = settled(threads, thread_id, input)[thread_id];
            &&& s.context.items.len() == t.context.items.len() + 1
            &&& s.context.items.drop_last() == t.context.items
            &&& s.context.items.last().role is User
            &&& s.context.items.last().content == Some(input)
            &&& s.context.items.last().tool_calls.len() == 0
            &&& s.context.items.last().tool_call_id is None
            &&& s.context.items.last().reasoning_content is None
            &&& s.context.history_version == t.context.history_version
            &&& s.context.token_info == t.context.token_info
            &&& s.context.reference_context == t.context.reference_context
            &&& s.active_turn is None
            &&& s.machine is None
            &&& s.thread == t.thread
            &&& s.tracker == t.tracker
        }),
        settled(threads, thread_id, input).dom() == threads.dom(),
{
    let t = threads[thread_id];
    let s = settled(threads, thread_id, input)[thread_id];
    assert(s.context.items.drop_last() =~= t.context.items);
    assert(settled(threads, thread_id, input).dom() =~= threads.dom());
}

/// Taking a turn in, occupying a thread and freeing it touch the slot or the history alone,
/// and where a thread is gone nothing happens.
pub proof fn law_steps_touch_one_thing(
    threads: Map<Seq<char>, ActiveView>,
    thread_id: Seq<char>,
    turn_id: Seq<char>,
    records: Option<Seq<journal::RecordView>>,
    text: Seq<char>,
)
    ensures
        threads.dom().contains(thread_id) ==> {
            let t = threads[thread_id];
            let o = occupied(threads, thread_id, turn_id)[thread_id];
            let a = answered(threads, thread_id, records, text)[thread_id];
            &&& o.active_turn == Some(turn_id)
            &&& o.thread == t.thread
            &&& o.context == t.context
            &&& o.tracker == t.tracker
            &&& o.machine == t.machine
            &&& a.active_turn == t.active_turn
            &&& a.thread == t.thread
            &&& a.tracker == t.tracker
            &&& a.machine == t.machine
            &&& a.context.items.len() > t.context.items.len()
            &&& a.context.items.take(t.context.items.len() as int) == t.context.items
            &&& a.context.items.last().role is Assistant
            &&& a.context.items.last().content == Some(text)
        },
        !threads.dom().contains(thread_id) ==> occupied(threads, thread_id, turn_id) == threads
            && answered(threads, thread_id, records, text) == threads && settled(
            threads,
            thread_id,
            text,
        ) == threads,
{
    if threads.dom().contains(thread_id) {
        let t = threads[thread_id];
        let a = answered(threads, thread_id, records, text)[thread_id];
        assert(a.context.items.take(t.context.items.len() as int) =~= t.context.items);
    }
}

/// The prompt holds what the hooks gave and what the skills are, each within its own
/// brackets, the hooks first; what is empty leaves no brackets.
pub proof fn law_prompt_holds_hooks_and_skills(hook_context: Seq<char>, skills: Seq<char>)
    ensures
        hook_context.len() == 0 && skills.len() == 0 ==> augmented_prompt(hook_context, skills) is None,
        hook_context.len() > 0 && skills.len() == 0 ==> augmented_prompt(hook_context, skills)
            == Some("\n\n<system-reminder>\n"@ + hook_context + "\n</system-reminder>"@),
        hook_context.len() == 0 && skills.len() > 0 ==> augmented_prompt(hook_context, skills)
            == Some("\n\n<available-skills>\n"@ + skills + "\n</available-skills>"@),
        hook_context.len() > 0 && skills.len() > 0 ==> augmented_prompt(hook_context, skills)
            == Some(
            ("\n\n<system-reminder>\n"@ + hook_context + "\n</system-reminder>"@) + (
            "\n\n<available-skills>\n"@ + skills + "\n</available-skills>"@),
        ),
{
    let b = "\n\n<available-skills>\n"@ + skills + "\n</available-skills>"@;
    if hook_context.len() > 0 && skills.len() > 0 {
        let a = "\n\n<system-reminder>\n"@ + hook_context + "\n</system-reminder>"@;
        assert(a + "\n\n<available-skills>\n"@ + skills + "\n</available-skills>"@ =~= a + b);
    } else if skills.len() > 0 {
        assert(Seq::<char>::empty() + "\n\n<available-skills>\n"@ + skills
            + "\n</available-skills>"@ =~= b);
    }
}

/// A turn is run with what it was submitted with: its own words, the history of its thread,
/// the chosen model, the workspace of the thread and the given prompt.
pub proof fn law_turn_is_run_as_submitted(
    r: RunTurnRequest,
    job: JobView,
    prompt: Option<Seq<char>>,
    threads: Map<Seq<char>, ActiveView>,
)
    requires
        is_run_request(r, job, prompt, threads),
    ensures
        r.kind is NewTurn,
        r.thread_id@ == job.turn.thread_id,
        r.turn_id@ == job.turn.id,
        r.user_input@ == job.turn.user_input,
        r.config@.model == job.model,
        r.config@.max_output_tokens == job.max_output_tokens,
        r.config@.token_budget == 100_000,
        r.config@.turn_timeout is None,
        r.config@.agent_mode == job.mode,
        r.config@.system_prompt == prompt,
        r.config@.workspace == job.workspace,
        threads.dom().contains(job.turn.thread_id) ==> model::messages(r.conversation_history@)
            == normalize::normalized(threads[job.turn.thread_id].context.items)
            && r.use_approval_store,
        !threads.dom().contains(job.turn.thread_id) ==> r.conversation_history@.len() == 0
            && !r.use_approval_store,
        r.reasoning_to_replay is None,
        !r.recording,
{
    assert(model::messages(r.conversation_history@).len() == r.conversation_history@.len());
}

/// What waits for an approval is the call that the model made, of this turn, with all that
/// it takes to go on later.
pub proof fn law_pending_approval_is_of_the_call(
    job: JobView,
    approval_id: Seq<char>,
    call_id: Seq<char>,
    tool_name: Seq<char>,
    arguments: Seq<char>,
    config_json: Seq<char>,
)
    ensures
        ({
            let p = job.pending(approval_id, call_id, tool_name, arguments, config_json);
            &&& p.approval_id == approval_id
            &&& p.thread_id == job.turn.thread_id
            &&& p.turn_id == job.turn.id
            &&& p.call_id == call_id
            &&& p.tool_name == tool_name
            &&& p.arguments == arguments
            &&& p.model == job.model
            &&& p.workspace == job.workspace
            &&& p.config_json == config_json
        }),
{
}

/// A job at another stage is the same job.
pub proof fn law_stage_is_all_that_moves(job: JobView, stage: StageView)
    ensures
        job.at(stage).stage == stage,
        job.at(stage).turn == job.turn,
        job.at(stage).model == job.model,
        job.at(stage).workspace == job.workspace,
        job.at(stage).max_output_tokens == job.max_output_tokens,
        job.at(stage).mode == job.mode,
{
}

/// The hooks of the prompt are told the words of the user, the thread and the turn.
pub proof fn law_hooks_see_the_prompt(c: HookContext, turn: TurnView)
    requires
        is_prompt_context(c, turn),
    ensures
        c.hook_point is UserPromptSubmitted,
        c.thread_id matches Some(t) && t@ == turn.thread_id,
        c.turn_id matches Some(t) && t@ == turn.id,
        c.data matches Some(d) && d@ == turn.user_input,
        c.tool_name is None,
        c.tool_call_id is None,
        c.approved is None,
{
}

/// A turn ends as it went: completed at the time it was settled, or failed; its id, its
/// thread and its words stay. A journal that cannot be written to is told as such.
pub proof fn law_turn_ends_as_it_went(
    before: JobView,
    after: JobView,
    step: JobStep,
    threads: Map<Seq<char>, ActiveView>,
    written: Result<(), String>,
)
    ensures
        is_after_completion(before, after, step, threads, written) ==> before.stage is Completing
            ==> after.stage is Ended && match written {
            Ok(_) => step matches JobStep::Done { turn, load } && turn@.status is Completed
                && turn@.completed_at == Some(before.stage->Completing_at) && turn@.id
                == before.turn.id && turn@.thread_id == before.turn.thread_id && turn@.user_input
                == before.turn.user_input && turn@.created_at == before.turn.created_at
                && turn@.model == before.turn.model,
            Err(e) => step matches JobStep::Failed { error } && error@ == RuntimeErrorView::State(
                "journal append failed: "@ + e@,
            ),
        },
        is_after_failure(before, after, step, written) ==> after.stage is Ended && match written {
            Ok(_) => step matches JobStep::Done { turn, load } && turn@.status is Failed && load is None
                && turn@.completed_at == before.turn.completed_at && turn@.id == before.turn.id
                && turn@.thread_id == before.turn.thread_id && turn@.user_input
                == before.turn.user_input && turn@.created_at == before.turn.created_at
                && turn@.model == before.turn.model,
            Err(e) => step matches JobStep::Failed { error } && error@ == RuntimeErrorView::State(
                "journal append failed: "@ + e@,
            ),
        },
        is_after_start(before, after, step, written) ==> before.stage is Starting ==> match written {
            Ok(_) => (step matches JobStep::ResolveProvider { model } && model@ == before.model) && (
            after.stage matches StageView::Resolving { hook_context } && hook_context
                == before.stage->Starting_hook_context) && after.turn == before.turn,
            Err(e) => (step matches JobStep::Failed { error } && error@ == RuntimeErrorView::State(
                "journal append failed: "@ + e@,
            )) && after.stage is Ended,
        },
{
}

/// A step that appends holds the entry itself; an approval that is kept leaves the others
/// as they were.
pub proof fn law_kept_approvals_stay(
    before: &ApprovalCoordinator,
    after: &ApprovalCoordinator,
    p: PendingView,
    other: Seq<char>,
)
    requires
        keeps_pending(before, after, p),
    ensures
        after.waiting().dom().contains(p.approval_id),
        after.waiting()[p.approval_id]@ == p,
        other != p.approval_id ==> (after.waiting().dom().contains(other)
            <==> before.waiting().dom().contains(other)),
        other != p.approval_id && before.waiting().dom().contains(other)
            ==> after.waiting()[other] == before.waiting()[other],
{
}

/// A history is offered for compaction where its thread is there and fewer than three
/// compactions in a row failed; what is offered is how full it is.
pub proof fn law_load_is_offered(threads: Map<Seq<char>, ActiveView>, thread_id: Seq<char>)
    ensures
        !threads.dom().contains(thread_id) ==> compactable_load(threads, thread_id) is None,
        threads.dom().contains(thread_id) && threads[thread_id].tracker.consecutive_failures >= 3
            ==> compactable_load(threads, thread_id) is None,
        threads.dom().contains(thread_id) && threads[thread_id].tracker.consecutive_failures < 3
            ==> compactable_load(threads, thread_id) == threads[thread_id].context.load(),
{
}

/// What is seen of a job stage is all that it holds.
pub proof fn law_job_stage_is_seen_whole(j: JobStage)
    ensures
        j is Persisting ==> j@ is Persisting,
        j is Hooking ==> j@ is Hooking,
        j matches JobStage::Starting { hook_context } ==> j@ == (StageView::Starting { hook_context: hook_context@, }),
        j matches JobStage::Resolving { hook_context } ==> j@ == (StageView::Resolving { hook_context: hook_context@, }),
        j matches JobStage::Rendering { hook_context } ==> j@ == (StageView::Rendering { hook_context: hook_context@, }),
        j is Running ==> j@ is Running,
        j matches JobStage::Updating { answer, at } ==> j@ == (StageView::Updating { answer: answer@, at }),
        j matches JobStage::Reading { answer, at } ==> j@ == (StageView::Reading { answer: answer@, at }),
        j matches JobStage::Completing { at } ==> j@ == (StageView::Completing { at }),
        j matches JobStage::Parking { pending } ==> j@ == (StageView::Parking { pending: pending@ }),
        j is Failing ==> j@ is Failing,
        j is Ended ==> j@ is Ended,
{
}

/// A step that appends holds the very entry, one that fails the very error, and one that is
/// done the very turn and load.
pub proof fn law_steps_hold_what_they_say(
    step: JobStep,
    entry: EntryView,
    error: RuntimeErrorView,
    turn: TurnView,
    load: Option<(u64, u64)>,
    m: Seq<char>,
)
    ensures
        is_append(step, entry) ==> (step matches JobStep::Append { entry: e } && e@ == entry),
        is_failure(step, error) ==> (step matches JobStep::Failed { error: e } && e@ == error),
        is_done(step, turn, load) ==> (step matches JobStep::Done { turn: t, load: l } && t@
            == turn && l == load),
        journal_error(m) == RuntimeErrorView::State("journal append failed: "@ + m),
{
}

} // verus!

//! One pipeline run as a state machine. The host performs each action that
//! `Session::step` returns (run a backend command, call the service, ask the
//! user) and hands back what came of it as the next event.
use crate::diff::{DiffCapture, DiffCaptureModel, diff_outcome, staged_diff};
use crate::error::{ErrorModel, PipelineError};
use crate::prompt::{
    GenerationRequest,
    GenerationRequestModel,
    build_prompt,
    generation_request,
    prompt_text,
    request_for,
};
use crate::reply::{ServiceReply, ServiceReplyModel, interpret_reply, reply_outcome};
use crate::text::is_blank;
use vstd::prelude::*;
use vstd::utf8::{decode_utf8, valid_utf8};

verus! {

/// The user's answer to a presented message.
#[derive(Clone, Copy, PartialEq, Eq, Structural, Debug)]
pub enum ReviewDecision {
    Accept,
    Regenerate,
    Cancel,
}

/// Where a run stands.
#[derive(Clone, Copy, PartialEq, Eq, Structural, Debug)]
pub enum Phase {
    Start,
    Staging,
    ReadingDiff,
    Generating,
    Presenting,
    Committing,
    Pushing,
    Finished,
}

/// What a backend command (stage-all, commit, push) came to. Where it could
/// not be started, `stderr` holds the reason.
#[derive(Clone, Debug, PartialEq, Eq)]
pub struct CommandOutcome {
    pub launched: bool,
    pub success: bool,
    pub stderr: String,
}

pub struct CommandOutcomeModel {
    pub launched: bool,
    pub success: bool,
    pub stderr: Seq<char>,
}

impl View for CommandOutcome {
    type V = CommandOutcomeModel;

    open spec fn view(&self) -> CommandOutcomeModel {
        CommandOutcomeModel { launched: self.launched, success: self.success, stderr: self.stderr@ }
    }
}

/// What the host reports back after performing an action.
pub enum Event {
    /// The run starts.
    Begin,
    /// The stage-all command finished.
    Staged(CommandOutcome),
    /// The staged-diff command finished.
    DiffRead(DiffCapture),
    /// The generation service answered.
    Replied(ServiceReply),
    /// The generation request got no answer; the reason.
    Unreachable(String),
    /// The user decided on the presented message.
    Decided(ReviewDecision),
    /// The commit command finished.
    Committed(CommandOutcome),
    /// The push command finished.
    Pushed(CommandOutcome),
}

pub enum EventModel {
    Begin,
    Staged(CommandOutcomeModel),
    DiffRead(DiffCaptureModel),
    Replied(ServiceReplyModel),
    Unreachable(Seq<char>),
    Decided(ReviewDecision),
    Committed(CommandOutcomeModel),
    Pushed(CommandOutcomeModel),
}

impl View for Event {
    type V = EventModel;

    open spec fn view(&self) -> EventModel {
        match self {
            Event::Begin => EventModel::Begin,
            Event::Staged(o) => EventModel::Staged(o@),
            Event::DiffRead(c) => EventModel::DiffRead(c@),
            Event::Replied(r) => EventModel::Replied(r@),
            Event::Unreachable(d) => EventModel::Unreachable(d@),
            Event::Decided(d) => EventModel::Decided(*d),
            Event::Committed(o) => EventModel::Committed(o@),
            Event::Pushed(o) => EventModel::Pushed(o@),
        }
    }
}

/// How a run ended well.
#[derive(Clone, Debug, PartialEq, Eq)]
pub enum Completion {
    /// Print-only mode: the message was generated and is to be shown.
    Printed(String),
    /// The user cancelled; nothing in the repository changed.
    Cancelled,
    /// The message was committed and the commit pushed.
    Pushed,
}

pub enum CompletionModel {
    Printed(Seq<char>),
    Cancelled,
    Pushed,
}

impl View for Completion {
    type V = CompletionModel;

    open spec fn view(&self) -> CompletionModel {
        match self {
            Completion::Printed(m) => CompletionModel::Printed(m@),
            Completion::Cancelled => CompletionModel::Cancelled,
            Completion::Pushed => CompletionModel::Pushed,
        }
    }
}

/// What the host is to do next.
#[derive(Debug, PartialEq, Eq)]
pub enum Action {
    /// Run the stage-everything command.
    StageAll,
    /// Run the staged-diff command.
    ReadDiff,
    /// Send this request to the generation service.
    Generate(GenerationRequest),
    /// Show this message and ask for a decision.
    Ask(String),
    /// Commit with this message, passed as one argument.
    Commit(String),
    /// Push.
    Push,
    /// The run is over.
    Finish(Result<Completion, PipelineError>),
}

pub enum ActionModel {
    StageAll,
    ReadDiff,
    Generate(GenerationRequestModel),
    Ask(Seq<char>),
    Commit(Seq<char>),
    Push,
    Finish(Result<CompletionModel, ErrorModel>),
}

impl View for Action {
    type V = ActionModel;

    open spec fn view(&self) -> ActionModel {
        match self {
            Action::StageAll => ActionModel::StageAll,
            Action::ReadDiff => ActionModel::ReadDiff,
            Action::Generate(r) => ActionModel::Generate(r@),
            Action::Ask(m) => ActionModel::Ask(m@),
            Action::Commit(m) => ActionModel::Commit(m@),
            Action::Push => ActionModel::Push,
            Action::Finish(Ok(c)) => ActionModel::Finish(Ok(c@)),
            Action::Finish(Err(e)) => ActionModel::Finish(Err(e@)),
        }
    }
}

/// The state of one run. The diff is read once; its prompt serves every
/// generation of the run.
pub struct Session {
    stage_all: bool,
    print_only: bool,
    model: String,
    language: String,
    phase: Phase,
    prompt: String,
    message: String,
}

pub struct SessionModel {
    pub stage_all: bool,
    pub print_only: bool,
    pub model: Seq<char>,
    pub language: Seq<char>,
    pub phase: Phase,
    pub prompt: Seq<char>,
    pub message: Seq<char>,
}

impl View for Session {
    type V = SessionModel;

    closed spec fn view(&self) -> SessionModel {
        SessionModel {
            stage_all: self.stage_all,
            print_only: self.print_only,
            model: self.model@,
            language: self.language@,
            phase: self.phase,
            prompt: self.prompt@,
            message: self.message@,
        }
    }
}

/// Whether a run in `phase` takes `e` as its next event.
pub open spec fn fits(phase: Phase, e: EventModel) -> bool {
    match e {
        EventModel::Begin => phase == Phase::Start,
        EventModel::Staged(_) => phase == Phase::Staging,
        EventModel::DiffRead(_) => phase == Phase::ReadingDiff,
        EventModel::Replied(_) => phase == Phase::Generating,
        EventModel::Unreachable(_) => phase == Phase::Generating,
        EventModel::Decided(_) => phase == Phase::Presenting,
        EventModel::Committed(_) => phase == Phase::Committing,
        EventModel::Pushed(_) => phase == Phase::Pushing,
    }
}

/// `s` ended with `r`.
pub open spec fn finish(s: SessionModel, r: Result<CompletionModel, ErrorModel>) -> (SessionModel, ActionModel) {
    (SessionModel { phase: Phase::Finished, ..s }, ActionModel::Finish(r))
}

/// The effect of a finished backend command that precedes another step:
/// `next` on success, `unavailable` when it could not be started, `failed`
/// (with its error output) when it exited non-zero.
pub open spec fn after_command(
    s: SessionModel,
    o: CommandOutcomeModel,
    unavailable: ErrorModel,
    failed: ErrorModel,
    next: (SessionModel, ActionModel),
) -> (SessionModel, ActionModel) {
    if !o.launched {
        finish(s, Err(unavailable))
    } else if !o.success {
        finish(s, Err(failed))
    } else {
        next
    }
}

/// The next state and the action that event `e` leads to from `s`, where
/// `fits(s.phase, e)`.
pub open spec fn transition(s: SessionModel, e: EventModel) -> (SessionModel, ActionModel) {
    match e {
        EventModel::Begin => if s.stage_all {
            (SessionModel { phase: Phase::Staging, ..s }, ActionModel::StageAll)
        } else {
            (SessionModel { phase: Phase::ReadingDiff, ..s }, ActionModel::ReadDiff)
        },
        EventModel::Staged(o) => after_command(
            s,
            o,
            ErrorModel::BackendUnavailable,
            ErrorModel::StageFailed { detail: o.stderr },
            (SessionModel { phase: Phase::ReadingDiff, ..s }, ActionModel::ReadDiff),
        ),
        EventModel::DiffRead(c) => match diff_outcome(c) {
            Err(err) => finish(s, Err(err)),
            Ok(d) => {
                let p = prompt_text(d, s.language);
                (
                    SessionModel { phase: Phase::Generating, prompt: p, ..s },
                    ActionModel::Generate(request_for(p)),
                )
            },
        },
        EventModel::Replied(r) => match reply_outcome(s.model, r) {
            Err(err) => finish(s, Err(err)),
            Ok(m) => if s.print_only {
                finish(SessionModel { message: m, ..s }, Ok(CompletionModel::Printed(m)))
            } else {
                (SessionModel { phase: Phase::Presenting, message: m, ..s }, ActionModel::Ask(m))
            },
        },
        EventModel::Unreachable(d) => finish(s, Err(ErrorModel::TransportError { detail: d })),
        EventModel::Decided(ReviewDecision::Accept) => (
            SessionModel { phase: Phase::Committing, ..s },
            ActionModel::Commit(s.message),
        ),
        EventModel::Decided(ReviewDecision::Regenerate) => (
            SessionModel { phase: Phase::Generating, ..s },
            ActionModel::Generate(request_for(s.prompt)),
        ),
        EventModel::Decided(ReviewDecision::Cancel) => finish(s, Ok(CompletionModel::Cancelled)),
        EventModel::Committed(o) => after_command(
            s,
            o,
            ErrorModel::BackendUnavailable,
            ErrorModel::CommitFailed { detail: o.stderr },
            (SessionModel { phase: Phase::Pushing, ..s }, ActionModel::Push),
        ),
        EventModel::Pushed(o) => after_command(
            s,
            o,
            ErrorModel::PushFailed { reason: o.stderr },
            ErrorModel::PushFailed { reason: o.stderr },
            finish(s, Ok(CompletionModel::Pushed)),
        ),
    }
}

/// In print-only mode a run never reaches the review or the commit.
pub open spec fn print_only_safe(s: SessionModel) -> bool {
    s.print_only ==> !(s.phase == Phase::Presenting || s.phase == Phase::Committing || s.phase
        == Phase::Pushing)
}

/// An action that changes the repository's history or its remote.
pub open spec fn commits(a: ActionModel) -> bool {
    a is Commit || a is Push
}

impl Session {
    /// In print-only mode a run never reaches the review or the commit.
    #[verifier::type_invariant]
    spec fn well_formed(self) -> bool {
        print_only_safe(self@)
    }

    /// A run that has not started, for `model`, writing messages in
    /// `language`.
    pub fn new(model: String, language: String, stage_all: bool, print_only: bool) -> (r: Session)
        ensures
            r@ == (SessionModel {
                stage_all,
                print_only,
                model: model@,
                language: language@,
                phase: Phase::Start,
                prompt: Seq::empty(),
                message: Seq::empty(),
            }),
            print_only_safe(r@),
    {
        Session {
            stage_all,
            print_only,
            model,
            language,
            phase: Phase::Start,
            prompt: String::new(),
            message: String::new(),
        }
    }

    /// Where the run stands.
    pub fn phase(&self) -> (r: Phase)
        ensures
            r == self@.phase,
    {
        self.phase
    }

    /// Whether the run takes `event` next.
    pub fn accepts(&self, event: &Event) -> (r: bool)
        ensures
            r == fits(self@.phase, event@),
    {
        match event {
            Event::Begin => self.phase == Phase::Start,
            Event::Staged(_) => self.phase == Phase::Staging,
            Event::DiffRead(_) => self.phase == Phase::ReadingDiff,
            Event::Replied(_) => self.phase == Phase::Generating,
            Event::Unreachable(_) => self.phase == Phase::Generating,
            Event::Decided(_) => self.phase == Phase::Presenting,
            Event::Committed(_) => self.phase == Phase::Committing,
            Event::Pushed(_) => self.phase == Phase::Pushing,
        }
    }

    fn end(&mut self, r: Result<Completion, PipelineError>) -> (a: Action)
        ensures
            final(self)@ == (SessionModel { phase: Phase::Finished, ..old(self)@ }),
            a@ == ActionModel::Finish(
                match r {
                    Ok(c) => Ok(c@),
                    Err(e) => Err(e@),
                },
            ),
    {
        self.phase = Phase::Finished;
        Action::Finish(r)
    }

    /// Takes the next event and says what to do. A run in print-only mode
    /// never asks to commit or push.
    pub fn step(&mut self, event: Event) -> (a: Action)
        requires
            fits(old(self)@.phase, event@),
        ensures
            (final(self)@, a@) == transition(old(self)@, event@),
            print_only_safe(final(self)@),
            old(self)@.print_only ==> !commits(a@),
    {
        proof {
            use_type_invariant(&*self);
        }
        match event {
            Event::Begin => {
                if self.stage_all {
                    self.phase = Phase::Staging;
                    Action::StageAll
                } else {
                    self.phase = Phase::ReadingDiff;
                    Action::ReadDiff
                }
            },
            Event::Staged(o) => {
                if !o.launched {
                    self.end(Err(PipelineError::BackendUnavailable))
                } else if !o.success {
                    self.end(Err(PipelineError::StageFailed { detail: o.stderr }))
                } else {
                    self.phase = Phase::ReadingDiff;
                    Action::ReadDiff
                }
            },
            Event::DiffRead(c) => {
                match staged_diff(c) {
                    Err(err) => self.end(Err(err)),
                    Ok(d) => {
                        let p = build_prompt(d.as_str(), self.language.as_str());
                        self.prompt = p.clone();
                        self.phase = Phase::Generating;
                        Action::Generate(generation_request(p))
                    },
                }
            },
            Event::Replied(r) => {
                match interpret_reply(self.model.as_str(), r) {
                    Err(err) => self.end(Err(err)),
                    Ok(m) => {
                        self.message = m.clone();
                        if self.print_only {
                            self.end(Ok(Completion::Printed(m)))
                        } else {
                            self.phase = Phase::Presenting;
                            Action::Ask(m)
                        }
                    },
                }
            },
            Event::Unreachable(d) => self.end(Err(PipelineError::TransportError { detail: d })),
            Event::Decided(ReviewDecision::Accept) => {
                self.phase = Phase::Committing;
                Action::Commit(self.message.clone())
            },
            Event::Decided(ReviewDecision::Regenerate) => {
                self.phase = Phase::Generating;
                Action::Generate(generation_request(self.prompt.clone()))
            },
            Event::Decided(ReviewDecision::Cancel) => self.end(Ok(Completion::Cancelled)),
            Event::Committed(o) => {
                if !o.launched {
                    self.end(Err(PipelineError::BackendUnavailable))
                } else if !o.success {
                    self.end(Err(PipelineError::CommitFailed { detail: o.stderr }))
                } else {
                    self.phase = Phase::Pushing;
                    Action::Push
                }
            },
            Event::Pushed(o) => {
                if !o.launched || !o.success {
                    self.end(Err(PipelineError::PushFailed { reason: o.stderr }))
                } else {
                    self.end(Ok(Completion::Pushed))
                }
            },
        }
    }
}


/// The state and the actions that `events` lead to from `s`, up to the first
/// event that the run does not take.
pub open spec fn run(s: SessionModel, events: Seq<EventModel>) -> (SessionModel, Seq<ActionModel>)
    decreases events.len(),
{
    if events.len() == 0 || !fits(s.phase, events[0]) {
        (s, Seq::empty())
    } else {
        let next = transition(s, events[0]);
        let rest = run(next.0, events.drop_first());
        (rest.0, seq![next.1] + rest.1)
    }
}

proof fn lemma_run_cons(s: SessionModel, e: EventModel, events: Seq<EventModel>)
    requires
        fits(s.phase, e),
    ensures
        run(s, seq![e] + events) == ({
            let next = transition(s, e);
            let rest = run(next.0, events);
            (rest.0, seq![next.1] + rest.1)
        }),
{
    assert((seq![e] + events)[0] == e);
    assert((seq![e] + events).drop_first() =~= events);
}

proof fn lemma_run_finished(s: SessionModel, events: Seq<EventModel>)
    requires
        s.phase == Phase::Finished,
    ensures
        run(s, events) == (s, Seq::<ActionModel>::empty()),
{
}

/// In print-only mode, whatever events come, a run never asks to commit or
/// push.
pub proof fn lemma_print_only_never_commits(s: SessionModel, events: Seq<EventModel>)
    requires
        s.print_only,
        print_only_safe(s),
    ensures
        forall|i: int| 0 <= i < run(s, events).1.len() ==> !commits(#[trigger] run(s, events).1[i]),
    decreases events.len(),
{
    if events.len() > 0 && fits(s.phase, events[0]) {
        let next = transition(s, events[0]);
        assert(next.0.print_only && print_only_safe(next.0) && !commits(next.1));
        lemma_print_only_never_commits(next.0, events.drop_first());
        let rest = run(next.0, events.drop_first());
        assert forall|i: int| 0 <= i < run(s, events).1.len() implies !commits(
            #[trigger] run(s, events).1[i],
        ) by {
            if i > 0 {
                assert(run(s, events).1[i] == rest.1[i - 1]);
            }
        }
    }
}

/// A staged diff that is empty or whitespace only ends the run with
/// `NoStagedChanges`, and nothing follows: no request reaches the
/// generation service.
pub proof fn lemma_blank_diff_stops(s: SessionModel, c: DiffCaptureModel, later: Seq<EventModel>)
    requires
        s.phase == Phase::ReadingDiff,
        c.launched,
        c.success,
        valid_utf8(c.stdout),
        is_blank(decode_utf8(c.stdout)),
    ensures
        run(s, seq![EventModel::DiffRead(c)] + later).1 == seq![
            ActionModel::Finish(Err(ErrorModel::NoStagedChanges)),
        ],
{
    lemma_run_cons(s, EventModel::DiffRead(c), later);
    let next = transition(s, EventModel::DiffRead(c));
    lemma_run_finished(next.0, later);
    assert(seq![next.1] + Seq::<ActionModel>::empty() =~= seq![next.1]);
}

/// Regenerating once and then confirming makes exactly two requests, both
/// with the prompt of the one diff read, and commits the second message.
pub proof fn lemma_regenerate_then_confirm(
    s: SessionModel,
    c: DiffCaptureModel,
    first: ServiceReplyModel,
    second: ServiceReplyModel,
)
    requires
        s.phase == Phase::ReadingDiff,
        !s.print_only,
        diff_outcome(c) is Ok,
        reply_outcome(s.model, first) is Ok,
        reply_outcome(s.model, second) is Ok,
    ensures
        ({
            let p = prompt_text(diff_outcome(c)->Ok_0, s.language);
            let m1 = reply_outcome(s.model, first)->Ok_0;
            let m2 = reply_outcome(s.model, second)->Ok_0;
            run(
                s,
                seq![
                    EventModel::DiffRead(c),
                    EventModel::Replied(first),
                    EventModel::Decided(ReviewDecision::Regenerate),
                    EventModel::Replied(second),
                    EventModel::Decided(ReviewDecision::Accept),
                ],
            ).1 == seq![
                ActionModel::Generate(request_for(p)),
                ActionModel::Ask(m1),
                ActionModel::Generate(request_for(p)),
                ActionModel::Ask(m2),
                ActionModel::Commit(m2),
            ]
        }),
{
    let e1 = EventModel::DiffRead(c);
    let e2 = EventModel::Replied(first);
    let e3 = EventModel::Decided(ReviewDecision::Regenerate);
    let e4 = EventModel::Replied(second);
    let e5 = EventModel::Decided(ReviewDecision::Accept);
    let s1 = transition(s, e1);
    let s2 = transition(s1.0, e2);
    let s3 = transition(s2.0, e3);
    let s4 = transition(s3.0, e4);
    let s5 = transition(s4.0, e5);
    let empty = Seq::<EventModel>::empty();
    lemma_run_cons(s4.0, e5, empty);
    lemma_run_cons(s3.0, e4, seq![e5]);
    assert(seq![e4] + seq![e5] =~= seq![e4, e5]);
    lemma_run_cons(s2.0, e3, seq![e4, e5]);
    assert(seq![e3] + seq![e4, e5] =~= seq![e3, e4, e5]);
    lemma_run_cons(s1.0, e2, seq![e3, e4, e5]);
    assert(seq![e2] + seq![e3, e4, e5] =~= seq![e2, e3, e4, e5]);
    lemma_run_cons(s, e1, seq![e2, e3, e4, e5]);
    assert(seq![e1] + seq![e2, e3, e4, e5] =~= seq![e1, e2, e3, e4, e5]);
    assert(seq![e5] =~= seq![e5] + empty);
    assert(run(s, seq![e1, e2, e3, e4, e5]).1 =~= seq![s1.1, s2.1, s3.1, s4.1, s5.1]);
}

/// A push that fails after a successful commit ends the run with
/// `PushFailed` and its reason; nothing follows, so the commit is never
/// undone.
pub proof fn lemma_push_failure_keeps_commit(
    s: SessionModel,
    committed: CommandOutcomeModel,
    pushed: CommandOutcomeModel,
    later: Seq<EventModel>,
)
    requires
        s.phase == Phase::Presenting,
        committed.launched,
        committed.success,
        !(pushed.launched && pushed.success),
    ensures
        run(
            s,
            seq![
                EventModel::Decided(ReviewDecision::Accept),
                EventModel::Committed(committed),
                EventModel::Pushed(pushed),
            ] + later,
        ).1 == seq![
            ActionModel::Commit(s.message),
            ActionModel::Push,
            ActionModel::Finish(Err(ErrorModel::PushFailed { reason: pushed.stderr })),
        ],
{
    let e1 = EventModel::Decided(ReviewDecision::Accept);
    let e2 = EventModel::Committed(committed);
    let e3 = EventModel::Pushed(pushed);
    let s1 = transition(s, e1);
    let s2 = transition(s1.0, e2);
    let s3 = transition(s2.0, e3);
    lemma_run_finished(s3.0, later);
    lemma_run_cons(s2.0, e3, later);
    lemma_run_cons(s1.0, e2, seq![e3] + later);
    lemma_run_cons(s, e1, seq![e2] + (seq![e3] + later));
    assert(seq![e1, e2, e3] + later =~= seq![e1] + (seq![e2] + (seq![e3] + later)));
    assert(run(s, seq![e1, e2, e3] + later).1 =~= seq![s1.1, s2.1, s3.1]);
}

} // verus!

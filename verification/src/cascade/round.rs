//! One conversational turn: a task and the steps that answer it.

use vstd::prelude::*;
use vstd::string::*;
use super::error::{result_view, CascadeError, CascadeErrorView};
use super::step::{
    completed,
    StepConfigView,
    or_empty,
    outcome_text,
    prepared,
    CascadeStep,
    StepConfig,
    StepKind,
    StepView,
};
use crate::requests::error::CompletionError;
use crate::requests::prompt::PromptRole;
use crate::requests::request::{forgotten, CompletionRequest, RequestView};
use crate::requests::response::CompletionResponse;
use crate::requests::stop_sequence::opt_view;
use crate::text::clone_opt;

verus! {

/// Where a round is in its life.
#[derive(Debug, Clone, Copy, PartialEq, Eq, Structural)]
pub enum RoundState {
    /// The task has not been put to the model.
    Unopened,
    /// The task is in the prompt and steps may run.
    Open,
    /// The turn is finished and its transcript is in the prompt.
    Closed,
}

/// What running a step calls for.
#[derive(Debug, Clone, Copy, PartialEq, Eq, Structural)]
pub enum StepAction {
    /// The step has run; nothing is asked of the backend.
    Done,
    /// The request is set up for the step: run it and hand the outcome to `finish_step`.
    Request,
}

/// An ordered sequence of steps that share one turn of the conversation.
#[derive(Debug, Clone, PartialEq, Eq)]
pub struct CascadeRound {
    /// The instruction put to the model when the round opens.
    pub task: String,
    pub steps: Vec<CascadeStep>,
    /// What stands between the steps in the transcript.
    pub step_separator: Option<char>,
    pub state: RoundState,
    /// Whether the request of a step is under way.
    pub step_in_progress: bool,
}

/// A round as plain values.
pub struct RoundView {
    pub task: Seq<char>,
    pub steps: Seq<StepView>,
    pub step_separator: Option<char>,
    pub state: RoundState,
    pub step_in_progress: bool,
}

/// The views of steps.
pub open spec fn step_views(steps: Seq<CascadeStep>) -> Seq<StepView> {
    steps.map_values(|s: CascadeStep| s@)
}

impl View for CascadeRound {
    type V = RoundView;

    open spec fn view(&self) -> RoundView {
        RoundView {
            task: self.task@,
            steps: step_views(self.steps@),
            step_separator: self.step_separator,
            state: self.state,
            step_in_progress: self.step_in_progress,
        }
    }
}

/// The separator as text.
pub open spec fn separator_text(separator: Option<char>) -> Seq<char> {
    match separator {
        Some(c) => seq![c],
        None => Seq::empty(),
    }
}

/// `text` after `before`, with the separator between them where `before` is not empty.
pub open spec fn appended(before: Seq<char>, separator: Seq<char>, text: Seq<char>) -> Seq<char> {
    if before.len() == 0 {
        text
    } else {
        before + separator + text
    }
}

/// What the steps that have run add up to.
pub open spec fn transcript(steps: Seq<StepView>, separator: Seq<char>) -> Seq<char>
    decreases steps.len(),
{
    if steps.len() == 0 {
        Seq::empty()
    } else {
        let before = transcript(steps.drop_last(), separator);
        match outcome_text(steps.last()) {
            Some(text) => appended(before, separator, text),
            None => before,
        }
    }
}

/// How many steps at the front have run.
pub open spec fn executed_prefix(steps: Seq<StepView>) -> nat
    decreases steps.len(),
{
    if steps.len() > 0 && steps[0].executed {
        1 + executed_prefix(steps.skip(1))
    } else {
        0
    }
}

/// The value of the last step that has run, if any has.
pub open spec fn latest_result(steps: Seq<StepView>) -> Option<Option<Seq<char>>>
    decreases steps.len(),
{
    if steps.len() == 0 {
        None
    } else if steps.last().executed {
        Some(steps.last().primitive_result)
    } else {
        latest_result(steps.drop_last())
    }
}

/// The steps after the guidance steps from position `from` on have run,
/// up to the first inference step that has not run.
pub open spec fn guided_from(steps: Seq<StepView>, from: nat) -> Seq<StepView>
    decreases steps.len() - from,
{
    if from >= steps.len() {
        steps
    } else if steps[from as int].executed {
        guided_from(steps, from + 1)
    } else if steps[from as int].kind == StepKind::Guidance {
        guided_from(
            steps.update(from as int, StepView { executed: true, ..steps[from as int] }),
            from + 1,
        )
    } else {
        steps
    }
}

/// The steps after every guidance step that is next in turn has run:
/// running stops at the first inference step that has not run.
pub open spec fn guided(steps: Seq<StepView>) -> Seq<StepView> {
    guided_from(steps, 0)
}

/// Steps that have run are passed over.
pub proof fn lemma_guided_skips(steps: Seq<StepView>, from: nat, to: nat)
    requires
        from <= to <= steps.len(),
        forall|j: int| from <= j < to ==> (#[trigger] steps[j]).executed,
    ensures
        guided_from(steps, from) == guided_from(steps, to),
    decreases to - from,
{
    if from < to {
        lemma_guided_skips(steps, from + 1, to);
    }
}

/// Running the step that is next in turn moves the turn on.
pub proof fn lemma_executed_prefix_advances(steps: Seq<StepView>, step: StepView)
    requires
        executed_prefix(steps) < steps.len(),
        step.executed,
    ensures
        executed_prefix(steps.update(executed_prefix(steps) as int, step)) > executed_prefix(
            steps,
        ),
{
    let k = executed_prefix(steps) as int;
    let after = steps.update(k, step);
    lemma_executed_prefix_bounds(steps);
    lemma_executed_prefix_bounds(after);
    if executed_prefix(after) <= k {
        let j = executed_prefix(after) as int;
        assert(!after[j].executed);
        if j < k {
            assert(after[j] == steps[j]);
            assert(steps[j].executed);
        }
    }
}

/// The steps counted by `executed_prefix` have run, and the one after them has not.
pub proof fn lemma_executed_prefix_bounds(steps: Seq<StepView>)
    ensures
        executed_prefix(steps) <= steps.len(),
        forall|j: int| 0 <= j < executed_prefix(steps) ==> (#[trigger] steps[j]).executed,
        executed_prefix(steps) < steps.len() ==> !steps[executed_prefix(steps) as int].executed,
    decreases steps.len(),
{
    if steps.len() > 0 && steps[0].executed {
        let rest = steps.skip(1);
        lemma_executed_prefix_bounds(rest);
        assert forall|j: int| 0 <= j < executed_prefix(steps) implies (#[trigger] steps[j]).executed by {
            if j > 0 {
                assert(steps[j] == rest[j - 1]);
            }
        }
        if executed_prefix(steps) < steps.len() {
            assert(steps[executed_prefix(steps) as int] == rest[executed_prefix(rest) as int]);
        }
    }
}

/// `executed_prefix` is the position before which every step has run and at which none has.
pub proof fn lemma_executed_prefix_is(steps: Seq<StepView>, k: int)
    requires
        0 <= k <= steps.len(),
        forall|j: int| 0 <= j < k ==> (#[trigger] steps[j]).executed,
        k < steps.len() ==> !steps[k].executed,
    ensures
        executed_prefix(steps) == k,
    decreases steps.len(),
{
    if k > 0 {
        let rest = steps.skip(1);
        assert forall|j: int| 0 <= j < k - 1 implies (#[trigger] rest[j]).executed by {
            assert(rest[j] == steps[j + 1]);
        }
        if k - 1 < rest.len() {
            assert(rest[k - 1] == steps[k]);
        }
        lemma_executed_prefix_is(rest, k - 1);
        assert(steps[0].executed);
    }
}

/// The count of a step that is added after `steps` steps: its place, from one.
pub open spec fn next_counter(steps: nat) -> usize {
    if steps < usize::MAX {
        (steps + 1) as usize
    } else {
        usize::MAX
    }
}

/// A round with a pending step added.
pub open spec fn step_added(
    round: RoundView,
    kind: StepKind,
    config: StepConfigView,
    content: Option<Seq<char>>,
) -> RoundView {
    RoundView {
        steps: round.steps.push(
            StepView {
                kind,
                config,
                step_counter: next_counter(round.steps.len()),
                llm_content: content,
                primitive_result: None,
                dynamic_suffix: None,
                executed: false,
            },
        ),
        ..round
    }
}

/// The text that the response of the step at `position` continues: the
/// transcript so far and the step's prefix.
pub open spec fn lead_in(round: RoundView, position: int) -> Seq<char> {
    appended(
        transcript(round.steps.take(position), separator_text(round.step_separator)),
        separator_text(round.step_separator),
        or_empty(round.steps[position].config.step_prefix),
    )
}

/// Opening a round: the task goes into the conversation as the user's
/// turn. A round can be opened once.
pub open spec fn opened(round: RoundView, request: RequestView) -> (
    RoundView,
    RequestView,
    Result<(), CascadeErrorView>,
) {
    if round.state != RoundState::Unopened {
        (round, request, Err(CascadeErrorView::RoundAlreadyOpened))
    } else {
        (
            RoundView { state: RoundState::Open, ..round },
            RequestView {
                messages: request.messages.push((PromptRole::User, round.task)),
                ..request
            },
            Ok(()),
        )
    }
}

/// Closing a round: the text that the response would continue is dropped
/// and the transcript goes into the conversation as the assistant's
/// turn. Only an open round with no step under way can be closed.
pub open spec fn closed(round: RoundView, request: RequestView) -> (
    RoundView,
    RequestView,
    Result<(), CascadeErrorView>,
) {
    if round.state != RoundState::Open {
        (round, request, Err(CascadeErrorView::RoundNotOpen))
    } else if round.step_in_progress {
        (round, request, Err(CascadeErrorView::StepInProgress))
    } else {
        (
            RoundView { state: RoundState::Closed, ..round },
            RequestView {
                messages: request.messages.push(
                    (
                        PromptRole::Assistant,
                        transcript(round.steps, separator_text(round.step_separator)),
                    ),
                ),
                generation_prefix: None,
                ..request
            },
            Ok(()),
        )
    }
}

/// Running the first step that has not run, as far as that takes no
/// backend. A guidance step has then run. For an inference step the
/// request is set up, with the transcript so far and the step's prefix
/// as the text to continue, and the step counts as under way. Steps run
/// only in an open round, one at a time.
pub open spec fn next_step(round: RoundView, request: RequestView) -> (
    RoundView,
    RequestView,
    Result<StepAction, CascadeErrorView>,
) {
    let k = executed_prefix(round.steps) as int;
    if round.state != RoundState::Open {
        (round, request, Err(CascadeErrorView::RoundNotOpen))
    } else if round.step_in_progress {
        (round, request, Err(CascadeErrorView::StepInProgress))
    } else if k >= round.steps.len() {
        (round, request, Err(CascadeErrorView::NoPendingStep))
    } else if round.steps[k].kind == StepKind::Guidance {
        (
            RoundView {
                steps: round.steps.update(k, StepView { executed: true, ..round.steps[k] }),
                ..round
            },
            request,
            Ok(StepAction::Done),
        )
    } else {
        (
            RoundView { step_in_progress: true, ..round },
            prepared(request, round.steps[k].config, lead_in(round, k)),
            Ok(StepAction::Request),
        )
    }
}

/// Handing the outcome of a request to the step under way. The step
/// reads a response with its grammar and has then run. A failed request,
/// or content that is no value of the grammar, leaves the step pending,
/// and the conversation in the request is forgotten. Either way no step
/// is under way afterwards.
pub open spec fn finished(
    round: RoundView,
    request: RequestView,
    outcome: Result<CompletionResponse, CompletionError>,
) -> (RoundView, RequestView, Result<(), CascadeErrorView>) {
    let k = executed_prefix(round.steps) as int;
    if !round.step_in_progress {
        (round, request, Err(CascadeErrorView::NoStepInProgress))
    } else if k >= round.steps.len() {
        (
            RoundView { step_in_progress: false, ..round },
            request,
            Err(CascadeErrorView::NoPendingStep),
        )
    } else {
        match completed(round.steps[k], outcome).1 {
            Ok(_) => (
                RoundView {
                    steps: round.steps.update(k, completed(round.steps[k], outcome).0),
                    step_in_progress: false,
                    ..round
                },
                request,
                Ok(()),
            ),
            Err(e) => (RoundView { step_in_progress: false, ..round }, forgotten(request), Err(e)),
        }
    }
}

/// Running a round on from where it stands: every guidance step that is
/// next in turn runs; then the request is set up for the inference step
/// that follows, or, after the last step, the round is closed.
pub open spec fn run_on(round: RoundView, request: RequestView) -> (
    RoundView,
    RequestView,
    Result<StepAction, CascadeErrorView>,
) {
    let shown = RoundView { steps: guided(round.steps), ..round };
    if round.state != RoundState::Open || round.step_in_progress {
        next_step(round, request)
    } else if executed_prefix(shown.steps) >= shown.steps.len() {
        match closed(shown, request) {
            (r, q, Ok(_)) => (r, q, Ok(StepAction::Done)),
            (r, q, Err(e)) => (r, q, Err(e)),
        }
    } else {
        next_step(shown, request)
    }
}

/// Running a round as far as that takes no backend. With an outcome,
/// the step under way takes it first; without one, a round that was not
/// opened is opened first. Then the round runs on.
pub open spec fn run_all(
    round: RoundView,
    request: RequestView,
    outcome: Option<Result<CompletionResponse, CompletionError>>,
) -> (RoundView, RequestView, Result<StepAction, CascadeErrorView>) {
    match outcome {
        Some(o) => match finished(round, request, o) {
            (r, q, Ok(_)) => run_on(r, q),
            (r, q, Err(e)) => (r, q, Err(e)),
        },
        None => if round.state == RoundState::Unopened {
            run_on(opened(round, request).0, opened(round, request).1)
        } else {
            run_on(round, request)
        },
    }
}

/// A step runs once, and only in an open round. Running the next step
/// and handing over an outcome leave every step that has run as it is
/// and add or drop no step; and a step runs, or takes an outcome that it
/// can read, only while its round is open.
pub proof fn law_step_runs_once(
    round: RoundView,
    request: RequestView,
    outcome: Result<CompletionResponse, CompletionError>,
)
    ensures
        next_step(round, request).0.steps.len() == round.steps.len(),
        finished(round, request, outcome).0.steps.len() == round.steps.len(),
        forall|j: int|
            0 <= j < round.steps.len() && (#[trigger] round.steps[j]).executed ==> next_step(
                round,
                request,
            ).0.steps[j] == round.steps[j] && finished(round, request, outcome).0.steps[j]
                == round.steps[j],
        next_step(round, request).2 is Ok ==> round.state == RoundState::Open,
        round.state != RoundState::Open ==> next_step(round, request).0 == round && next_step(
            round,
            request,
        ).1 == request,
{
    lemma_executed_prefix_bounds(round.steps);
}

impl CascadeRound {
    /// The views of the round's steps.
    pub open spec fn step_views(&self) -> Seq<StepView> {
        step_views(self.steps@)
    }

    /// What the steps that have run add up to.
    pub open spec fn transcript(&self) -> Seq<char> {
        transcript(self.step_views(), separator_text(self.step_separator))
    }

    /// Whether `other` is this round but for its steps.
    pub open spec fn same_frame(&self, other: &CascadeRound) -> bool {
        &&& self.task == other.task
        &&& self.step_separator == other.step_separator
        &&& self.state == other.state
        &&& self.step_in_progress == other.step_in_progress
    }

    /// A round for `task`, unopened and without steps; a space separates its steps.
    pub fn new(task: &str) -> (round: CascadeRound)
        ensures
            round.task@ == task@,
            round.steps@.len() == 0,
            round.step_separator == Some(' '),
            round.state == RoundState::Unopened,
            !round.step_in_progress,
    {
        CascadeRound {
            task: task.to_owned(),
            steps: Vec::new(),
            step_separator: Some(' '),
            state: RoundState::Unopened,
            step_in_progress: false,
        }
    }

    fn counter(&self) -> (counter: usize)
        ensures
            counter == next_counter(self.steps@.len()),
    {
        let n = self.steps.len();
        if n < usize::MAX {
            n + 1
        } else {
            n
        }
    }

    /// Adds a pending step that asks the model. Steps that are there stay as they are.
    pub fn add_inference_step(&mut self, step_config: &StepConfig) -> (step: &mut CascadeStep)
        ensures
            step@ == step_added(old(self)@, StepKind::Inference, step_config@, None).steps.last(),
            final(self).steps@ == old(self).steps@.push(*final(step)),
            final(self).same_frame(old(self)),
    {
        let counter = self.counter();
        self.steps.push(CascadeStep::new_inference_step(step_config.duplicate(), counter));
        let n = self.steps.len();
        &mut self.steps[n - 1]
    }

    /// Adds a pending step whose content is given. Steps that are there stay as they are.
    pub fn add_guidance_step(&mut self, step_config: &StepConfig, llm_content: &str) -> (step:
        &mut CascadeStep)
        ensures
            step@ == step_added(
                old(self)@,
                StepKind::Guidance,
                step_config@,
                Some(llm_content@),
            ).steps.last(),
            final(self).steps@ == old(self).steps@.push(*final(step)),
            final(self).same_frame(old(self)),
    {
        let counter = self.counter();
        self.steps.push(
            CascadeStep::new_guidance_step(step_config.duplicate(), counter, llm_content),
        );
        let n = self.steps.len();
        &mut self.steps[n - 1]
    }

    /// The step added last.
    pub fn last_step(&mut self) -> (step: Result<&mut CascadeStep, CascadeError>)
        ensures
            old(self).steps@.len() == 0 ==> step == Err::<&mut CascadeStep, CascadeError>(
                CascadeError::NoSteps,
            ) && *final(self) == *old(self),
            old(self).steps@.len() > 0 ==> (step matches Ok(s) && *s == old(self).steps@.last()
                && final(self).steps@ == old(self).steps@.update(
                old(self).steps@.len() - 1,
                *final(s),
            ) && final(self).same_frame(old(self))),
    {
        let n = self.steps.len();
        if n == 0 {
            Err(CascadeError::NoSteps)
        } else {
            Ok(&mut self.steps[n - 1])
        }
    }

    /// Opens the round: the task goes into the prompt as the user's turn.
    ///
    /// A round can be opened once.
    pub fn open_round(&mut self, request: &mut CompletionRequest) -> (result: Result<
        (),
        CascadeError,
    >)
        ensures
            (final(self)@, final(request)@, result_view(result)) == opened(
                old(self)@,
                old(request)@,
            ),
            result is Err ==> *final(self) == *old(self) && *final(request) == *old(request),
            final(self).steps == old(self).steps,
    {
        match self.state {
            RoundState::Unopened => {
                request.prompt.add_user_message(self.task.as_str());
                self.state = RoundState::Open;
                Ok(())
            },
            _ => Err(CascadeError::RoundAlreadyOpened),
        }
    }

    /// The transcript of the steps that have run.
    pub fn display_outcome(&self) -> (text: String)
        ensures
            text@ == self.transcript(),
    {
        let mut sep = String::new();
        if let Some(c) = self.step_separator {
            sep = char_text(c);
        }
        let mut text = String::new();
        let mut i: usize = 0;
        while i < self.steps.len()
            invariant
                i <= self.steps.len(),
                sep@ == separator_text(self.step_separator),
                text@ == transcript(self.step_views().take(i as int), sep@),
            decreases self.steps.len() - i,
        {
            proof {
                let now = self.step_views().take(i + 1);
                assert(now.drop_last() =~= self.step_views().take(i as int));
                assert(now.last() == self.steps@[i as int]@);
            }
            if let Some(part) = self.steps[i].display_outcome() {
                if text.as_str().is_empty() {
                    text = part;
                } else {
                    text.append(sep.as_str());
                    text.append(part.as_str());
                }
            }
            i += 1;
        }
        assert(self.step_views().take(i as int) =~= self.step_views());
        text
    }

    /// Closes the round: the text that the response would continue is
    /// dropped and the transcript goes into the prompt as the assistant's
    /// turn.
    ///
    /// Only an open round with no step under way can be closed.
    pub fn close_round(&mut self, request: &mut CompletionRequest) -> (result: Result<
        (),
        CascadeError,
    >)
        ensures
            (final(self)@, final(request)@, result_view(result)) == closed(
                old(self)@,
                old(request)@,
            ),
            result is Err ==> *final(self) == *old(self) && *final(request) == *old(request),
            final(self).steps == old(self).steps,
    {
        match self.state {
            RoundState::Open => {
                if self.step_in_progress {
                    return Err(CascadeError::StepInProgress);
                }
                let text = self.display_outcome();
                request.prompt.clear_generation_prefix();
                request.prompt.add_assistant_message(text.as_str());
                self.state = RoundState::Closed;
                Ok(())
            },
            _ => Err(CascadeError::RoundNotOpen),
        }
    }

    /// The position of the first step that has not run.
    pub fn pending_step(&self) -> (position: Option<usize>)
        ensures
            match position {
                Some(k) => k == executed_prefix(self.step_views()) && k < self.steps@.len(),
                None => executed_prefix(self.step_views()) == self.steps@.len(),
            },
    {
        let mut i: usize = 0;
        while i < self.steps.len()
            invariant
                i <= self.steps.len(),
                forall|j: int| 0 <= j < i ==> (#[trigger] self.step_views()[j]).executed,
            decreases self.steps.len() - i,
        {
            if !self.steps[i].executed {
                proof {
                    lemma_executed_prefix_is(self.step_views(), i as int);
                }
                return Some(i);
            }
            i += 1;
        }
        proof {
            lemma_executed_prefix_is(self.step_views(), i as int);
        }
        None
    }

    fn lead_in_text(&self, position: usize) -> (text: String)
        requires
            position < self.steps@.len(),
        ensures
            text@ == lead_in(self@, position as int),
    {
        let mut sep = String::new();
        if let Some(c) = self.step_separator {
            sep = char_text(c);
        }
        let mut text = String::new();
        let mut i: usize = 0;
        while i < position
            invariant
                i <= position < self.steps.len(),
                sep@ == separator_text(self.step_separator),
                text@ == transcript(self.step_views().take(i as int), sep@),
            decreases position - i,
        {
            proof {
                let now = self.step_views().take(i + 1);
                assert(now.drop_last() =~= self.step_views().take(i as int));
                assert(now.last() == self.steps@[i as int]@);
            }
            if let Some(part) = self.steps[i].display_outcome() {
                if text.as_str().is_empty() {
                    text = part;
                } else {
                    text.append(sep.as_str());
                    text.append(part.as_str());
                }
            }
            i += 1;
        }
        let mut prefix = String::new();
        if let Some(p) = &self.steps[position].step_config.step_prefix {
            prefix = p.clone();
        }
        assert(prefix@ == or_empty(self.step_views()[position as int].config.step_prefix));
        if text.as_str().is_empty() {
            prefix
        } else {
            text.append(sep.as_str());
            text.append(prefix.as_str());
            text
        }
    }

    /// Runs the first step that has not run, as far as that takes no backend.
    ///
    /// A guidance step has then run. For an inference step the request
    /// is set up, with the transcript so far and the step's prefix as the
    /// text to continue, and the step counts as under way until
    /// `finish_step` takes the outcome. Steps run only in an open round,
    /// one at a time.
    pub fn run_next_step(&mut self, request: &mut CompletionRequest) -> (result: Result<
        StepAction,
        CascadeError,
    >)
        ensures
            (final(self)@, final(request)@, result_view(result)) == next_step(
                old(self)@,
                old(request)@,
            ),
            result is Err ==> *final(self) == *old(self) && *final(request) == *old(request),
    {
        match self.state {
            RoundState::Open => {},
            _ => {
                return Err(CascadeError::RoundNotOpen);
            },
        }
        if self.step_in_progress {
            return Err(CascadeError::StepInProgress);
        }
        match self.pending_step() {
            None => Err(CascadeError::NoPendingStep),
            Some(k) => {
                match self.steps[k].kind {
                    StepKind::Guidance => {
                        let ghost before = self.step_views();
                        self.steps[k].executed = true;
                        assert(self.step_views() =~= before.update(
                            k as int,
                            StepView { executed: true, ..before[k as int] },
                        ));
                        Ok(StepAction::Done)
                    },
                    StepKind::Inference => {
                        let prefix = self.lead_in_text(k);
                        self.steps[k].prepare(request, prefix.as_str());
                        self.step_in_progress = true;
                        Ok(StepAction::Request)
                    },
                }
            },
        }
    }

    /// Takes the outcome of the request of the step under way.
    ///
    /// The step reads a response with its grammar and has then run. A
    /// failed request, or content that is no value of the grammar, leaves
    /// the step pending, and the conversation in the request is
    /// forgotten. Either way no step is under way afterwards.
    pub fn finish_step(
        &mut self,
        request: &mut CompletionRequest,
        outcome: Result<CompletionResponse, CompletionError>,
    ) -> (result: Result<(), CascadeError>)
        ensures
            (final(self)@, final(request)@, result_view(result)) == finished(
                old(self)@,
                old(request)@,
                outcome,
            ),
    {
        if !self.step_in_progress {
            return Err(CascadeError::NoStepInProgress);
        }
        self.step_in_progress = false;
        match self.pending_step() {
            None => Err(CascadeError::NoPendingStep),
            Some(k) => {
                let ghost before = self.step_views();
                let result = self.steps[k].complete(outcome);
                match result {
                    Ok(_) => {
                        assert(self.step_views() =~= before.update(k as int, self.steps@[k as int]@));
                        Ok(())
                    },
                    Err(e) => {
                        assert(self.step_views() =~= before);
                        request.reset_completion_request();
                        Err(e)
                    },
                }
            },
        }
    }

    /// Runs the round as far as that takes no backend: opens it, runs its
    /// steps in order, and closes it after the last.
    ///
    /// The first call hands in no outcome. Each time the answer is
    /// `Request`, the request is set up for an inference step: the
    /// driver runs it and calls again with the outcome. The answer is
    /// `Done` when the round is closed. With an outcome, the step under
    /// way takes it first; without one, a round that was not opened is
    /// opened first. Then every guidance step that is next in turn runs.
    pub fn run_all_steps(
        &mut self,
        request: &mut CompletionRequest,
        outcome: Option<Result<CompletionResponse, CompletionError>>,
    ) -> (result: Result<StepAction, CascadeError>)
        ensures
            (final(self)@, final(request)@, result_view(result)) == run_all(
                old(self)@,
                old(request)@,
                outcome,
            ),
    {
        match outcome {
            Some(o) => {
                match self.finish_step(request, o) {
                    Err(e) => {
                        return Err(e);
                    },
                    Ok(_) => {},
                }
            },
            None => {
                match self.state {
                    RoundState::Unopened => {
                        match self.open_round(request) {
                            Err(e) => {
                                return Err(e);
                            },
                            Ok(_) => {},
                        }
                    },
                    _ => {},
                }
            },
        }
        let ghost begun = self@;
        let ghost asked = request@;
        loop
            invariant
                request@ == asked,
                self@ == (RoundView { steps: self@.steps, ..begun }),
                guided(self@.steps) == guided(begun.steps),
                !(begun.state == RoundState::Open && !begun.step_in_progress) ==> self@ == begun,
                run_all(old(self)@, old(request)@, outcome) == run_on(begun, asked),
            decreases self.steps@.len() - executed_prefix(self@.steps),
        {
            let ghost before = self@.steps;
            proof {
                lemma_executed_prefix_bounds(before);
            }
            match self.run_next_step(request) {
                Ok(StepAction::Request) => {
                    proof {
                        lemma_guided_skips(before, 0, executed_prefix(before));
                    }
                    return Ok(StepAction::Request);
                },
                Ok(StepAction::Done) => {
                    proof {
                        let k = executed_prefix(before);
                        let after = self@.steps;
                        lemma_executed_prefix_advances(
                            before,
                            StepView { executed: true, ..before[k as int] },
                        );
                        lemma_executed_prefix_bounds(after);
                        lemma_guided_skips(before, 0, k);
                        assert forall|j: int| 0 <= j < k + 1 implies (#[trigger] after[j]).executed by {
                            if j < k {
                                assert(after[j] == before[j]);
                            }
                        }
                        lemma_guided_skips(after, 0, k + 1);
                    }
                },
                Err(CascadeError::NoPendingStep) => {
                    proof {
                        lemma_guided_skips(before, 0, before.len());
                    }
                    return match self.close_round(request) {
                        Err(e) => Err(e),
                        Ok(_) => Ok(StepAction::Done),
                    };
                },
                Err(e) => {
                    return Err(e);
                },
            }
        }
    }

    /// The value of the last step that has run: `None` where none has,
    /// `Some(None)` where that step found that there is no answer.
    pub fn primitive_result(&self) -> (value: Option<Option<String>>)
        ensures
            match latest_result(self.step_views()) {
                None => value is None,
                Some(v) => value matches Some(w) && opt_view(w) == v,
            },
    {
        let mut i: usize = self.steps.len();
        assert(self.step_views().take(i as int) =~= self.step_views());
        while i > 0
            invariant
                i <= self.steps.len(),
                latest_result(self.step_views()) == latest_result(
                    self.step_views().take(i as int),
                ),
            decreases i,
        {
            proof {
                let now = self.step_views().take(i as int);
                assert(now.drop_last() =~= self.step_views().take(i - 1));
                assert(now.last() == self.steps@[i - 1]@);
            }
            if self.steps[i - 1].executed {
                return Some(clone_opt(&self.steps[i - 1].primitive_result));
            }
            i -= 1;
        }
        assert(self.step_views().take(0) =~= Seq::empty());
        None
    }
}

/// `String::from` of std for a character: the text of that one character.
#[verifier::external_body]
fn char_text(c: char) -> (text: String)
    ensures
        text@ == seq![c],
{
    String::from(c)
}

} // verus!

//! Extracting the URLs that meet the caller's instructions.
//!
//! The workflow first has the model state its criteria, then lets it pick
//! one candidate after another from the URLs found in the caller's text.
//! Each pick is validated against the criteria. After a rejected pick the
//! model is asked whether any candidate that is left can still qualify,
//! and a "no" ends the selection.
//!
//! The workflow does not run requests. `start` and `advance` set the
//! request up for the next step and answer `Request`; the driver runs the
//! request through the engine and hands the outcome to `advance`.

use vstd::prelude::*;
use vstd::string::*;
use super::instruct_prompt::InstructPrompt;
use super::session::{
    begin_step,
    close_round,
    end_step,
    guide,
    open_round,
    round_closed,
    round_opened,
    set_suffix,
    step_ended,
    step_run,
    suffix_set,
};
use super::urls::{extract_urls, linkify_urls, present, serializations, unique};
use crate::cascade::error::{result_view, CascadeError, CascadeErrorView};
use crate::cascade::flow::{flow_closed, CascadeFlow, FlowState, FlowView};
use crate::cascade::round::{transcript, separator_text, RoundView, StepAction};
use crate::cascade::step::{or_empty, StepConfig, StepConfigView, StepKind};
use crate::primitives::boolean::BooleanPrimitive;
use crate::primitives::exact_string::{without, ExactStringPrimitive};
use crate::primitives::grammar::{GrammarView, ParseErrorView};
use crate::primitives::text::TextPrimitive;
use crate::requests::config::RequestConfig;
use crate::requests::error::CompletionError;
use crate::requests::request::{forgotten, CompletionRequest, RequestView};
use crate::requests::response::CompletionResponse;
use crate::requests::stop_sequence::opt_view;
use crate::text::{clone_opt, clone_strings, decimal, decimal_text, join, joined, views};

verus! {

/// The name of the workflow's cascade.
pub const CASCADE_NAME: &'static str = "ExtractUrls";

/// What the model says when no candidate qualifies.
pub const NO_RESULT: &'static str = "No qualifying URLs.";

/// The task of the round that shows the model what an answer looks like.
pub const GUIDANCE_TASK: &'static str =
    "We are extracting URLs from text. Please provide examples of extracting URLs with the instructions: 'Which of these URLs are commonly used in webdev tutorials?'";

/// The examples shown to the model.
pub const GUIDANCE: &'static str =
    "`https://www.example.com is commonly used in webdev tutorials: true.` In this example, the URL satisfies the criteria: 'is commonly used in webdev tutorials.' Therefore, the URL should be extracted from the text.\n`https://www.zombo.com is commonly used in webdev tutorials: false.`. In this example, the URL does not satisfy the criteria: 'is commonly used in webdev tutorials.' Therefore, the URL should not be extracted from the text.";

/// The task of every selection round after the first.
pub const NEXT_TASK: &'static str =
    "Return the next URL that is likely to satisfy the criteria, or if there are no more URLs to extract say 'No qualifying URLs.'.";

/// What follows a pick that was rejected.
pub const APOLOGY: &'static str =
    ". I apologize. This URL does not meet the criteria and was returned by mistake. In the future, we'll only return URLs that satisfy the criteria.\n";

/// What follows the answer on the candidates that are left.
pub const CHECKED: &'static str = ".\n";

/// Where the workflow stands.
#[derive(Debug, Clone, Copy, PartialEq, Eq, Structural)]
pub enum ExtractPhase {
    /// Not started.
    Idle,
    /// The model is describing the criteria.
    CriteriaDescription,
    /// The model is putting the criteria as a statement with a yes-or-no answer.
    CriteriaStatement,
    /// The model is picking a candidate.
    Extract,
    /// The model is judging the pick.
    Validate,
    /// The model is judging whether any candidate that is left can qualify.
    CheckRemaining,
    /// Over.
    Finished,
}

/// Why an extraction ended without a result.
#[derive(Debug, PartialEq, Eq)]
pub enum ExtractError {
    /// Neither instructions nor material hold a URL.
    NoUrlsFound,
    /// No instructions were given.
    MissingInstructions,
    /// No supporting material was given.
    MissingSupportingMaterial,
    /// A step that has to give a value gave none.
    MissingResult,
    /// No step is awaited: the workflow was not started, or is over.
    NotRunning,
    /// A step that does not ask the model stood where the workflow's step was to run.
    OutOfStep,
    /// The cascade failed.
    Cascade(CascadeError),
}

/// An extraction error as plain values.
pub enum ExtractErrorView {
    NoUrlsFound,
    MissingInstructions,
    MissingSupportingMaterial,
    MissingResult,
    NotRunning,
    OutOfStep,
    /// The request of a step failed.
    Request(CompletionError),
    /// The response of a step is no value of the step's grammar.
    Parse(ParseErrorView),
    /// The cascade was used out of order.
    Structure(CascadeErrorView),
}

/// A cascade error as a workflow reports it.
pub open spec fn structure(e: CascadeErrorView) -> ExtractErrorView {
    match e {
        CascadeErrorView::Request(failure) => ExtractErrorView::Request(failure),
        CascadeErrorView::Parse(refusal) => ExtractErrorView::Parse(refusal),
        other => ExtractErrorView::Structure(other),
    }
}

impl View for ExtractError {
    type V = ExtractErrorView;

    open spec fn view(&self) -> ExtractErrorView {
        match self {
            ExtractError::NoUrlsFound => ExtractErrorView::NoUrlsFound,
            ExtractError::MissingInstructions => ExtractErrorView::MissingInstructions,
            ExtractError::MissingSupportingMaterial => ExtractErrorView::MissingSupportingMaterial,
            ExtractError::MissingResult => ExtractErrorView::MissingResult,
            ExtractError::NotRunning => ExtractErrorView::NotRunning,
            ExtractError::OutOfStep => ExtractErrorView::OutOfStep,
            ExtractError::Cascade(e) => structure(e@),
        }
    }
}

/// What an extraction found, and how.
#[derive(Debug, Clone, PartialEq, Eq)]
pub struct ExtractUrlResult {
    /// The URLs that were accepted, in the order of acceptance; `None` where there is none.
    pub results: Option<Vec<String>>,
    /// The criteria as the model stated them.
    pub criteria: String,
    /// How long the cascade was open, in milliseconds.
    pub duration: u64,
    /// The cascade, closed.
    pub workflow: CascadeFlow,
}

/// What the driver has to do next.
#[derive(Debug, PartialEq, Eq)]
pub enum ExtractAction {
    /// Run the workflow's request through the engine and hand the outcome to `advance`.
    Request,
    /// The extraction is over.
    Done(Result<ExtractUrlResult, ExtractError>),
}

/// An action as plain values.
pub enum ExtractActionView {
    Request,
    /// The extraction ended with these URLs, under these criteria, with this cascade.
    Finished {
        results: Option<Seq<Seq<char>>>,
        criteria: Seq<char>,
        duration: u64,
        workflow: FlowView,
    },
    /// The extraction failed.
    Failed(ExtractErrorView),
}

impl View for ExtractAction {
    type V = ExtractActionView;

    open spec fn view(&self) -> ExtractActionView {
        match self {
            ExtractAction::Request => ExtractActionView::Request,
            ExtractAction::Done(Ok(result)) => ExtractActionView::Finished {
                results: match result.results {
                    Some(urls) => Some(views(urls@)),
                    None => None,
                },
                criteria: result.criteria@,
                duration: result.duration,
                workflow: result.workflow@,
            },
            ExtractAction::Done(Err(e)) => ExtractActionView::Failed(e@),
        }
    }
}

/// A workflow as plain values: what decides its next move, its cascade,
/// and its request.
pub struct ControlState {
    pub phase: ExtractPhase,
    /// The number of the pick under way, from one.
    pub iteration: nat,
    /// The number of candidates when the selection began.
    pub total: nat,
    /// The URLs accepted so far.
    pub results: Seq<Seq<char>>,
    /// The candidates that have not been picked.
    pub allowed: Seq<Seq<char>>,
    /// The pick that is being judged.
    pub candidate: Option<Seq<char>>,
    pub criteria: Option<Seq<char>>,
    /// The number of URLs at which the selection stops.
    pub max_urls: nat,
    pub instructions: Option<Seq<char>>,
    pub material: Option<Seq<char>>,
    /// The cascade of the run under way.
    pub flow: FlowView,
    /// The request that the steps are run with.
    pub request: RequestView,
}

/// The task of the round in which the model describes the criteria.
pub open spec fn description_task(instructions: Seq<char>) -> Seq<char> {
    "We are extracting URLs from text using the instructions:\n"@ + instructions
        + " Briefly describe the criteria of the URLs to be extracted."@
}

/// The task of the round in which the model puts the criteria as a statement.
pub open spec fn statement_task(description: Seq<char>, instructions: Seq<char>) -> Seq<char> {
    "Reframe the instructions and criteria into a statment used to evaluate if a URL should be extracted. This statement should have a boolean answer. The answer should represent whether or not the URL satisfies the criteria. This should be a single sentence 'is' statment; as in, 'The URL is <criteria>: true or false'.\nCriteria:\n"@
        + description + "\nInstructions:\n"@ + instructions
}

/// The task of the first selection round.
pub open spec fn selection_task(material: Seq<char>, criteria: Seq<char>) -> Seq<char> {
    "Text with URLs to extract:\n"@ + material
        + "\nReturn the URL that is most likely relevant to the criteria. If you are certain the text contains no qualifying URLs say 'No qualifying URLs.'.\nCriteria:\n This URL is "@
        + criteria + "."@
}

/// The step that shows the model what an answer looks like.
pub open spec fn guidance_config() -> StepConfigView {
    StepConfigView {
        step_prefix: None,
        stop_word_done: "\n"@,
        stop_word_no_result: None,
        cache_prompt: false,
        grammar: GrammarView::Unconstrained,
    }
}

/// The step in which the model describes the criteria.
pub open spec fn description_config() -> StepConfigView {
    StepConfigView {
        step_prefix: Some("Criteria: "@),
        stop_word_done: "\n"@,
        stop_word_no_result: None,
        cache_prompt: false,
        grammar: GrammarView::Text { max_tokens: 200 },
    }
}

/// The step in which the model puts the criteria as a statement.
pub open spec fn statement_config() -> StepConfigView {
    StepConfigView {
        step_prefix: Some("The URL is "@),
        stop_word_done: ": true or false"@,
        stop_word_no_result: None,
        cache_prompt: false,
        grammar: GrammarView::Text { max_tokens: 200 },
    }
}

/// The step in which the model picks one of `allowed`, or says that none qualifies.
pub open spec fn extract_config(allowed: Seq<Seq<char>>) -> StepConfigView {
    StepConfigView {
        step_prefix: None,
        stop_word_done: "\n"@,
        stop_word_no_result: Some(NO_RESULT@),
        cache_prompt: true,
        grammar: GrammarView::ExactString { allowed },
    }
}

/// The step in which the model judges the pick against `criteria`.
pub open spec fn validate_config(criteria: Seq<char>) -> StepConfigView {
    StepConfigView {
        step_prefix: Some(" is "@ + criteria + ": "@),
        stop_word_done: "\n"@,
        stop_word_no_result: None,
        cache_prompt: true,
        grammar: GrammarView::Boolean,
    }
}

/// The step in which the model judges whether any of `allowed` meets `criteria`.
pub open spec fn check_config(allowed: Seq<Seq<char>>, criteria: Seq<char>) -> StepConfigView {
    StepConfigView {
        step_prefix: Some(
            "At least one of the remaining URLs, "@ + joined(allowed, ", "@) + ", is "@ + criteria
                + ": "@,
        ),
        stop_word_done: "\n"@,
        stop_word_no_result: None,
        cache_prompt: true,
        grammar: GrammarView::Boolean,
    }
}

/// The configuration of the step whose outcome the workflow waits for.
pub open spec fn awaited_config(s: ControlState) -> StepConfigView {
    match s.phase {
        ExtractPhase::CriteriaDescription => description_config(),
        ExtractPhase::CriteriaStatement => statement_config(),
        ExtractPhase::Extract => extract_config(s.allowed),
        ExtractPhase::Validate => validate_config(or_empty(s.criteria)),
        _ => check_config(s.allowed, or_empty(s.criteria)),
    }
}

/// The URLs in an optional text.
pub open spec fn urls_in(text: Option<Seq<char>>) -> Seq<Seq<char>> {
    match text {
        Some(t) => unique(present(serializations(linkify_urls(t)))),
        None => Seq::empty(),
    }
}

/// The accepted URLs as a result shows them: `None` where there is none.
pub open spec fn shown(results: Seq<Seq<char>>) -> Option<Seq<Seq<char>>> {
    if results.len() == 0 {
        None
    } else {
        Some(results)
    }
}

/// The cascade that a workflow holds while no run is under way.
pub open spec fn fresh_flow() -> FlowView {
    FlowView {
        cascade_name: CASCADE_NAME@,
        rounds: Seq::empty(),
        start_time: 0,
        duration: 0,
        state: FlowState::Unopened,
    }
}

/// The run fails.
pub open spec fn fail(s: ControlState, e: ExtractErrorView) -> (ControlState, ExtractActionView) {
    (ControlState { phase: ExtractPhase::Finished, ..s }, ExtractActionView::Failed(e))
}

/// The last round is closed.
pub open spec fn closing(s: ControlState) -> (ControlState, Result<(), CascadeErrorView>) {
    let closed = round_closed(s.flow, s.request);
    (ControlState { flow: closed.0, request: closed.1, ..s }, closed.2)
}

/// The run is given up for a reason that the backend or the model gave:
/// the last round is closed, so that no round is left open, and the run
/// fails with that reason.
pub open spec fn abort(s: ControlState, e: ExtractErrorView) -> (ControlState, ExtractActionView) {
    fail(closing(s).0, e)
}

/// The run ends with what was accepted: the cascade is closed at time
/// `now` and handed out.
pub open spec fn finish(s: ControlState, now: u64) -> (ControlState, ExtractActionView) {
    match flow_closed(s.flow, now).1 {
        Err(e) => fail(s, structure(e)),
        Ok(_) => (
            ControlState { phase: ExtractPhase::Finished, flow: fresh_flow(), ..s },
            ExtractActionView::Finished {
                results: shown(s.results),
                criteria: or_empty(s.criteria),
                duration: flow_closed(s.flow, now).0.duration,
                workflow: flow_closed(s.flow, now).0,
            },
        ),
    }
}

/// A round for `task` is added and opened.
pub open spec fn opening(s: ControlState, task: Seq<char>, separated: bool) -> ControlState {
    let opened = round_opened(s.flow, s.request, task, separated);
    ControlState { flow: opened.0, request: opened.1, ..s }
}

/// The step of `phase` is added to the last round and the request is set
/// up for it: the workflow then waits in that phase.
pub open spec fn asking(s: ControlState, phase: ExtractPhase) -> (ControlState, ExtractActionView) {
    let begun = step_run(
        s.flow,
        s.request,
        StepKind::Inference,
        awaited_config(ControlState { phase, ..s }),
        None,
    );
    let after = ControlState { flow: begun.0, request: begun.1, ..s };
    match begun.2 {
        Ok(StepAction::Request) => (ControlState { phase, ..after }, ExtractActionView::Request),
        Ok(StepAction::Done) => fail(after, ExtractErrorView::OutOfStep),
        Err(e) => fail(after, structure(e)),
    }
}

/// The last round is closed and the run ends.
pub open spec fn closing_finish(s: ControlState, now: u64) -> (ControlState, ExtractActionView) {
    match closing(s).1 {
        Err(e) => fail(closing(s).0, structure(e)),
        Ok(_) => finish(closing(s).0, now),
    }
}

/// The head of the selection loop before the first pick, in the first
/// selection round: the selection ends at once where there is no
/// candidate or no URL is wanted; else the model picks.
pub open spec fn first_pick(s: ControlState, now: u64) -> (ControlState, ExtractActionView) {
    if s.total < 1 || s.results.len() >= s.max_urls {
        closing_finish(s, now)
    } else {
        asking(ControlState { iteration: 1, ..s }, ExtractPhase::Extract)
    }
}

/// The head of the selection loop after a pick, between rounds: the
/// selection ends when every candidate had its turn or enough URLs were
/// accepted; else the model picks again, in a round of its own.
pub open spec fn later_pick(s: ControlState, now: u64) -> (ControlState, ExtractActionView) {
    if s.iteration >= s.total || s.results.len() >= s.max_urls {
        finish(s, now)
    } else {
        asking(
            ControlState { iteration: s.iteration + 1, ..opening(s, NEXT_TASK@, false) },
            ExtractPhase::Extract,
        )
    }
}

/// The last round is closed and the selection goes on.
pub open spec fn closing_later_pick(s: ControlState, now: u64) -> (
    ControlState,
    ExtractActionView,
) {
    match closing(s).1 {
        Err(e) => fail(closing(s).0, structure(e)),
        Ok(_) => later_pick(closing(s).0, now),
    }
}

/// The model has described the criteria: it is asked to put them as a
/// statement, in a round of its own.
pub open spec fn on_description(s: ControlState, description: Seq<char>) -> (
    ControlState,
    ExtractActionView,
) {
    match closing(s).1 {
        Err(e) => fail(closing(s).0, structure(e)),
        Ok(_) => asking(
            opening(closing(s).0, statement_task(description, or_empty(s.instructions)), true),
            ExtractPhase::CriteriaStatement,
        ),
    }
}

/// The selection begins: a round is opened that puts the text and the
/// criteria to the model, every candidate is counted, and the first pick
/// is due.
pub open spec fn selection_begun(s: ControlState, now: u64) -> (ControlState, ExtractActionView) {
    first_pick(
        ControlState {
            total: s.allowed.len(),
            ..opening(s, selection_task(or_empty(s.material), or_empty(s.criteria)), false)
        },
        now,
    )
}

/// The model has stated the criteria: the round is closed, the statement
/// is kept as the criteria, and the selection begins.
pub open spec fn on_statement(s: ControlState, statement: Seq<char>, now: u64) -> (
    ControlState,
    ExtractActionView,
) {
    match closing(s).1 {
        Err(e) => fail(closing(s).0, structure(e)),
        Ok(_) => selection_begun(ControlState { criteria: Some(statement), ..closing(s).0 }, now),
    }
}

/// The pick was rejected: the model is told so after its verdict, and is
/// asked, in the same round, whether any candidate that is left meets the
/// criteria.
pub open spec fn rejected(s: ControlState) -> (ControlState, ExtractActionView) {
    match suffix_set(s.flow, APOLOGY@).1 {
        Err(e) => fail(s, structure(e)),
        Ok(_) => asking(
            ControlState { flow: suffix_set(s.flow, APOLOGY@).0, ..s },
            ExtractPhase::CheckRemaining,
        ),
    }
}

/// The model has judged the pick: an accepted pick is a result and the
/// next pick follows; after a rejected pick the model is told so and
/// asked about the candidates that are left.
pub open spec fn on_verdict(s: ControlState, answer: Seq<char>, now: u64) -> (
    ControlState,
    ExtractActionView,
) {
    if answer == "true"@ {
        closing_later_pick(
            ControlState { results: s.results.push(or_empty(s.candidate)), ..s },
            now,
        )
    } else if answer == "false"@ {
        rejected(s)
    } else {
        abort(s, ExtractErrorView::Parse(ParseErrorView::NotBoolean(answer)))
    }
}

/// The model has judged the candidates that are left: after a "yes" the
/// next pick follows, a "no" ends the selection.
pub open spec fn on_remaining(s: ControlState, answer: Seq<char>, now: u64) -> (
    ControlState,
    ExtractActionView,
) {
    match suffix_set(s.flow, CHECKED@).1 {
        Err(e) => fail(s, structure(e)),
        Ok(_) => {
            let marked = ControlState { flow: suffix_set(s.flow, CHECKED@).0, ..s };
            match closing(marked).1 {
                Err(e) => fail(closing(marked).0, structure(e)),
                Ok(_) => if answer == "true"@ {
                    later_pick(closing(marked).0, now)
                } else if answer == "false"@ {
                    finish(closing(marked).0, now)
                } else {
                    fail(
                        closing(marked).0,
                        ExtractErrorView::Parse(ParseErrorView::NotBoolean(answer)),
                    )
                },
            }
        },
    }
}

/// What the workflow does with the value of the step it waited for.
pub open spec fn on_value(s: ControlState, value: Option<Seq<char>>, now: u64) -> (
    ControlState,
    ExtractActionView,
) {
    match s.phase {
        ExtractPhase::Extract => match value {
            None => closing_finish(s, now),
            Some(url) => asking(
                ControlState { allowed: without(s.allowed, url), candidate: Some(url), ..s },
                ExtractPhase::Validate,
            ),
        },
        _ => match value {
            None => abort(s, ExtractErrorView::MissingResult),
            Some(text) => match s.phase {
                ExtractPhase::CriteriaDescription => on_description(s, text),
                ExtractPhase::CriteriaStatement => on_statement(s, text, now),
                ExtractPhase::Validate => on_verdict(s, text, now),
                _ => on_remaining(s, text, now),
            },
        },
    }
}

/// The workflow's transition: the state after the outcome of the awaited
/// step's request, and the action it calls for.
///
/// The step under way takes the outcome. A failed request and a response
/// that is no value end the run with that error, after the round has
/// been closed. Else the workflow goes on as the value says.
pub open spec fn control_step(
    s: ControlState,
    outcome: Result<CompletionResponse, CompletionError>,
    now: u64,
) -> (ControlState, ExtractActionView) {
    if s.phase is Idle || s.phase is Finished {
        (s, ExtractActionView::Failed(ExtractErrorView::NotRunning))
    } else {
        let ended = step_ended(s.flow, s.request, outcome);
        let after = ControlState { flow: ended.0, request: ended.1, ..s };
        match ended.2 {
            Err(e) => abort(after, structure(e)),
            Ok(value) => on_value(after, value, now),
        }
    }
}

/// The state in which a workflow starts over, before it looks at its input.
pub open spec fn cleared(s: ControlState) -> ControlState {
    ControlState {
        phase: ExtractPhase::Finished,
        iteration: 0,
        total: 0,
        allowed: Seq::empty(),
        candidate: None,
        flow: fresh_flow(),
        ..s
    }
}

/// The cascade is opened and the model is shown examples and asked to
/// describe the criteria.
pub open spec fn criteria_set(s: ControlState, instructions: Seq<char>, now: u64) -> (
    ControlState,
    ExtractActionView,
) {
    let begun = opening(
        ControlState {
            flow: FlowView { start_time: now, state: FlowState::Open, ..s.flow },
            ..s
        },
        GUIDANCE_TASK@,
        true,
    );
    let guided = step_run(
        begun.flow,
        begun.request,
        StepKind::Guidance,
        guidance_config(),
        Some(GUIDANCE@),
    );
    let shown = ControlState { flow: guided.0, request: guided.1, ..begun };
    match guided.2 {
        Err(e) => fail(shown, structure(e)),
        Ok(_) => match closing(shown).1 {
            Err(e) => fail(closing(shown).0, structure(e)),
            Ok(_) => asking(
                opening(closing(shown).0, description_task(instructions), true),
                ExtractPhase::CriteriaDescription,
            ),
        },
    }
}

/// How a workflow starts: with the URLs of instructions and material as
/// candidates, and the model asked to describe the criteria. It does not
/// start without a URL, without instructions or without material.
pub open spec fn control_start(s: ControlState, now: u64) -> (ControlState, ExtractActionView) {
    let urls = urls_in(s.instructions) + urls_in(s.material);
    if urls.len() == 0 {
        (cleared(s), ExtractActionView::Failed(ExtractErrorView::NoUrlsFound))
    } else if s.instructions is None {
        (cleared(s), ExtractActionView::Failed(ExtractErrorView::MissingInstructions))
    } else if s.material is None {
        (cleared(s), ExtractActionView::Failed(ExtractErrorView::MissingSupportingMaterial))
    } else {
        criteria_set(ControlState { allowed: unique(urls), ..cleared(s) }, s.instructions->0, now)
    }
}

/// The heading of a round in the rendering of a result, the task, and
/// what the round's steps added up to.
pub open spec fn rendered_round(index: nat, round: RoundView) -> Seq<char> {
    "\x1b[38;5;44mRound "@ + decimal_text(index + 1) + "\x1b[0m\n"@ + round.task + "\n"@
        + transcript(round.steps, separator_text(round.step_separator)) + "\n"@
}

/// The rounds of a cascade, rendered one after the other.
pub open spec fn rendered_rounds(rounds: Seq<RoundView>) -> Seq<char>
    decreases rounds.len(),
{
    if rounds.len() == 0 {
        Seq::empty()
    } else {
        rendered_rounds(rounds.drop_last()) + rendered_round(
            (rounds.len() - 1) as nat,
            rounds.last(),
        )
    }
}

/// A result as a reader sees it: the name of the cascade, its rounds in
/// order, the criteria, and the duration in milliseconds.
pub open spec fn rendered_result(
    workflow: FlowView,
    criteria: Seq<char>,
    duration: u64,
) -> Seq<char> {
    "\n\x1b[38;5;45m\x1b[1m"@ + workflow.cascade_name + "\x1b[0m\n\n"@ + rendered_rounds(
        workflow.rounds,
    ) + "\x1b[38;5;42mcriteria\x1b[0m: \""@ + criteria + "\"\n\x1b[38;5;43mduration\x1b[0m: "@
        + decimal_text(duration as nat) + "ms\n"@
}

impl ExtractUrlResult {
    /// Renders the result for a reader: the name of the cascade, each
    /// round with its number, its task and its transcript, the criteria,
    /// and the duration.
    pub fn render(&self) -> (text: String)
        ensures
            text@ == rendered_result(self.workflow@, self.criteria@, self.duration),
    {
        let mut text = "\n\x1b[38;5;45m\x1b[1m".to_owned();
        text.append(self.workflow.cascade_name.as_str());
        text.append("\x1b[0m\n\n");
        let ghost head = text@;
        let ghost rounds = self.workflow@.rounds;
        let mut i: usize = 0;
        assert(rounds.take(0) =~= Seq::empty());
        assert(text@ =~= head + rendered_rounds(rounds.take(0)));
        while i < self.workflow.rounds.len()
            invariant
                i <= self.workflow.rounds.len(),
                rounds == self.workflow@.rounds,
                text@ == head + rendered_rounds(rounds.take(i as int)),
            decreases self.workflow.rounds.len() - i,
        {
            let ghost before = text@;
            proof {
                let now = rounds.take(i + 1);
                assert(now.drop_last() =~= rounds.take(i as int));
                assert(now.last() == self.workflow.rounds@[i as int]@);
            }
            let number = decimal((i + 1) as u64);
            let transcript = self.workflow.rounds[i].display_outcome();
            text.append("\x1b[38;5;44mRound ");
            text.append(number.as_str());
            text.append("\x1b[0m\n");
            text.append(self.workflow.rounds[i].task.as_str());
            text.append("\n");
            text.append(transcript.as_str());
            text.append("\n");
            assert(text@ =~= before + rendered_round(i as nat, self.workflow.rounds@[i as int]@));
            assert(text@ =~= head + rendered_rounds(rounds.take(i + 1)));
            i += 1;
        }
        assert(rounds.take(i as int) =~= rounds);
        let duration = decimal(self.duration);
        text.append("\x1b[38;5;42mcriteria\x1b[0m: \"");
        text.append(self.criteria.as_str());
        text.append("\"\n\x1b[38;5;43mduration\x1b[0m: ");
        text.append(duration.as_str());
        text.append("ms\n");
        assert(text@ =~= rendered_result(self.workflow@, self.criteria@, self.duration));
        text
    }

    fn new(flow: CascadeFlow, results: Option<Vec<String>>, criteria: &str) -> (result:
        ExtractUrlResult)
        ensures
            result.results == results,
            result.criteria@ == criteria@,
            result.duration == flow.duration,
            result.workflow == flow,
    {
        ExtractUrlResult {
            results,
            criteria: criteria.to_owned(),
            duration: flow.duration,
            workflow: flow,
        }
    }
}

/// The extraction workflow.
#[derive(Debug, Clone, PartialEq, Eq)]
pub struct ExtractUrls {
    /// The request that the steps are run with.
    pub base_req: CompletionRequest,
    pub instruct_prompt: InstructPrompt,
    /// The criteria as the model stated them, once it has.
    pub criteria: Option<String>,
    /// The URLs accepted so far.
    pub results: Vec<String>,
    /// The number of URLs at which the selection stops.
    pub max_urls: usize,
    /// The cascade of the run under way.
    pub flow: CascadeFlow,
    /// The candidates that have not been picked.
    pub primitive: ExactStringPrimitive,
    pub phase: ExtractPhase,
    /// The pick that is being judged.
    pub candidate: Option<String>,
    /// The number of the pick under way, from one.
    pub iteration: usize,
    /// The number of candidates when the selection began.
    pub total: usize,
}

impl ExtractUrls {
    /// The workflow as plain values.
    pub open spec fn control(&self) -> ControlState {
        ControlState {
            phase: self.phase,
            iteration: self.iteration as nat,
            total: self.total as nat,
            results: views(self.results@),
            allowed: self.primitive@,
            candidate: opt_view(self.candidate),
            criteria: opt_view(self.criteria),
            max_urls: self.max_urls as nat,
            instructions: opt_view(self.instruct_prompt.instructions),
            material: opt_view(self.instruct_prompt.supporting_material),
            flow: self.flow@,
            request: self.base_req@,
        }
    }

    /// A workflow that has not started: no criteria, no results, and a limit of five URLs.
    pub fn new(base_req: CompletionRequest) -> (workflow: ExtractUrls)
        ensures
            workflow.control() == (ControlState {
                phase: ExtractPhase::Idle,
                iteration: 0,
                total: 0,
                results: Seq::empty(),
                allowed: Seq::empty(),
                candidate: None,
                criteria: None,
                max_urls: 5,
                instructions: None,
                material: None,
                flow: fresh_flow(),
                request: base_req@,
            }),
            workflow.base_req == base_req,
    {
        let workflow = ExtractUrls {
            base_req,
            instruct_prompt: InstructPrompt::new(),
            criteria: None,
            results: Vec::new(),
            max_urls: 5,
            flow: CascadeFlow::new(CASCADE_NAME),
            primitive: ExactStringPrimitive::default(),
            phase: ExtractPhase::Idle,
            candidate: None,
            iteration: 0,
            total: 0,
        };
        assert(workflow.control().results =~= Seq::empty());
        workflow
    }

    /// The same workflow with another limit on the number of URLs.
    pub fn max_urls(self, max_urls: usize) -> (workflow: ExtractUrls)
        ensures
            workflow == (ExtractUrls { max_urls, ..self }),
    {
        let mut workflow = self;
        workflow.max_urls = max_urls;
        workflow
    }

    /// The criteria as text, empty while there are none.
    fn criteria_text(&self) -> (text: String)
        ensures
            text@ == or_empty(opt_view(self.criteria)),
    {
        match &self.criteria {
            Some(c) => c.clone(),
            None => String::new(),
        }
    }

    /// The configuration of the step that the workflow asks for in `phase`.
    fn step_for(&self, phase: ExtractPhase) -> (config: StepConfig)
        ensures
            config@ == awaited_config(ControlState { phase, ..self.control() }),
    {
        match phase {
            ExtractPhase::CriteriaDescription => StepConfig {
                step_prefix: Some("Criteria: ".to_owned()),
                grammar: TextPrimitive::default().text_token_length(200).grammar(),
                ..StepConfig::default()
            },
            ExtractPhase::CriteriaStatement => StepConfig {
                step_prefix: Some("The URL is ".to_owned()),
                stop_word_done: ": true or false".to_owned(),
                grammar: TextPrimitive::default().text_token_length(200).grammar(),
                ..StepConfig::default()
            },
            ExtractPhase::Extract => StepConfig {
                cache_prompt: true,
                stop_word_no_result: Some(NO_RESULT.to_owned()),
                grammar: self.primitive.grammar(),
                ..StepConfig::default()
            },
            ExtractPhase::Validate => {
                let criteria = self.criteria_text();
                StepConfig {
                    cache_prompt: true,
                    step_prefix: Some(" is ".to_owned().concat(criteria.as_str()).concat(": ")),
                    grammar: BooleanPrimitive::default().grammar(),
                    ..StepConfig::default()
                }
            },
            _ => {
                let remaining_urls = join(&self.primitive.allowed_strings, ", ");
                let criteria = self.criteria_text();
                StepConfig {
                    cache_prompt: true,
                    step_prefix: Some(
                        "At least one of the remaining URLs, ".to_owned().concat(
                            remaining_urls.as_str(),
                        ).concat(", is ").concat(criteria.as_str()).concat(": "),
                    ),
                    grammar: BooleanPrimitive::default().grammar(),
                    ..StepConfig::default()
                }
            },
        }
    }

    /// Ends the run with an error.
    fn fail(&mut self, e: ExtractError) -> (action: ExtractAction)
        ensures
            (final(self).control(), action@) == fail(old(self).control(), e@),
    {
        self.phase = ExtractPhase::Finished;
        ExtractAction::Done(Err(e))
    }

    /// Gives the run up: closes the last round, so that no round is left
    /// open, and ends the run with the error.
    fn abort(&mut self, e: ExtractError) -> (action: ExtractAction)
        ensures
            (final(self).control(), action@) == abort(old(self).control(), e@),
    {
        let closed = close_round(&mut self.flow, &mut self.base_req);
        self.fail(e)
    }

    /// Ends the run with what was accepted: the cascade is closed and handed out.
    fn finish(&mut self, now: u64) -> (action: ExtractAction)
        ensures
            (final(self).control(), action@) == finish(old(self).control(), now),
    {
        match self.flow.close_cascade(now) {
            Err(e) => self.fail(ExtractError::Cascade(e)),
            Ok(_) => {
                let mut flow = CascadeFlow::new(CASCADE_NAME);
                core::mem::swap(&mut flow, &mut self.flow);
                let results = if self.results.len() == 0 {
                    None
                } else {
                    Some(clone_strings(&self.results))
                };
                let criteria = self.criteria_text();
                self.phase = ExtractPhase::Finished;
                ExtractAction::Done(Ok(ExtractUrlResult::new(flow, results, criteria.as_str())))
            },
        }
    }

    /// Closes the last round.
    fn closing(&mut self) -> (result: Result<(), CascadeError>)
        ensures
            (final(self).control(), result_view(result)) == closing(old(self).control()),
    {
        close_round(&mut self.flow, &mut self.base_req)
    }

    /// Adds a round for `task` and opens it.
    fn opening(&mut self, task: &str, separated: bool)
        ensures
            final(self).control() == opening(old(self).control(), task@, separated),
    {
        open_round(&mut self.flow, &mut self.base_req, task, separated);
    }

    /// Adds the step of `phase` to the last round and sets the request up for it.
    fn asking(&mut self, phase: ExtractPhase) -> (action: ExtractAction)
        ensures
            (final(self).control(), action@) == asking(old(self).control(), phase),
    {
        let config = self.step_for(phase);
        match begin_step(&mut self.flow, &mut self.base_req, &config) {
            Err(e) => self.fail(ExtractError::Cascade(e)),
            Ok(StepAction::Done) => self.fail(ExtractError::OutOfStep),
            Ok(StepAction::Request) => {
                self.phase = phase;
                ExtractAction::Request
            },
        }
    }

    /// Closes the last round and ends the run.
    fn closing_finish(&mut self, now: u64) -> (action: ExtractAction)
        ensures
            (final(self).control(), action@) == closing_finish(old(self).control(), now),
    {
        match self.closing() {
            Err(e) => self.fail(ExtractError::Cascade(e)),
            Ok(_) => self.finish(now),
        }
    }

    /// Asks the model to pick one of the candidates that are left: the
    /// step is added to the last round and the request is set up for it.
    /// Without a round to add it to, or with a round that cannot run it,
    /// the run fails.
    pub fn extract_step(&mut self) -> (action: ExtractAction)
        ensures
            (final(self).control(), action@) == asking(old(self).control(), ExtractPhase::Extract),
    {
        self.asking(ExtractPhase::Extract)
    }

    /// Asks the model whether the pick meets the criteria: the step is
    /// added to the last round and the request is set up for it. Without
    /// a round to add it to, or with a round that cannot run it, the run
    /// fails.
    pub fn validate_step(&mut self) -> (action: ExtractAction)
        ensures
            (final(self).control(), action@) == asking(
                old(self).control(),
                ExtractPhase::Validate,
            ),
    {
        self.asking(ExtractPhase::Validate)
    }

    /// Tells the model that its pick was rejected and asks whether any
    /// candidate that is left meets the criteria, in the same round.
    pub fn check_for_remaining(&mut self) -> (action: ExtractAction)
        ensures
            (final(self).control(), action@) == rejected(old(self).control()),
    {
        match set_suffix(&mut self.flow, APOLOGY) {
            Err(e) => self.fail(ExtractError::Cascade(e)),
            Ok(_) => self.asking(ExtractPhase::CheckRemaining),
        }
    }

    /// The head of the selection loop before the first pick.
    fn first_pick(&mut self, now: u64) -> (action: ExtractAction)
        ensures
            (final(self).control(), action@) == first_pick(old(self).control(), now),
    {
        if self.total < 1 || self.results.len() >= self.max_urls {
            self.closing_finish(now)
        } else {
            self.iteration = 1;
            self.extract_step()
        }
    }

    /// The head of the selection loop after a pick.
    fn later_pick(&mut self, now: u64) -> (action: ExtractAction)
        ensures
            (final(self).control(), action@) == later_pick(old(self).control(), now),
    {
        if self.iteration >= self.total || self.results.len() >= self.max_urls {
            self.finish(now)
        } else {
            self.opening(NEXT_TASK, false);
            self.iteration = self.iteration + 1;
            self.extract_step()
        }
    }

    /// Closes the last round and goes on with the selection.
    fn closing_later_pick(&mut self, now: u64) -> (action: ExtractAction)
        ensures
            (final(self).control(), action@) == closing_later_pick(old(self).control(), now),
    {
        match self.closing() {
            Err(e) => self.fail(ExtractError::Cascade(e)),
            Ok(_) => self.later_pick(now),
        }
    }

    /// Begins the selection: opens its first round, with the text and
    /// the criteria as the task, counts the candidates, and asks for the
    /// first pick. The picks that follow are made as `advance` takes the
    /// outcomes. Where there is no candidate or no URL is wanted, the
    /// round is closed again and the run ends at once.
    pub fn run_cascade(&mut self, now: u64) -> (action: ExtractAction)
        ensures
            (final(self).control(), action@) == selection_begun(old(self).control(), now),
    {
        let material = match self.instruct_prompt.build_supporting_material() {
            Some(m) => m,
            None => String::new(),
        };
        let criteria = self.criteria_text();
        let task = "Text with URLs to extract:\n".to_owned().concat(material.as_str()).concat(
            "\nReturn the URL that is most likely relevant to the criteria. If you are certain the text contains no qualifying URLs say 'No qualifying URLs.'.\nCriteria:\n This URL is ",
        ).concat(criteria.as_str()).concat(".");
        self.opening(task.as_str(), false);
        self.total = self.primitive.allowed_strings.len();
        self.first_pick(now)
    }

    /// Opens the cascade at time `now` and has the model state the
    /// criteria: a closed round of examples, then the round in which the
    /// model describes the criteria for `instructions`. The statement of
    /// the criteria follows as `advance` takes the description.
    pub fn set_criteria(&mut self, instructions: &str, now: u64) -> (action: ExtractAction)
        ensures
            (final(self).control(), action@) == criteria_set(
                old(self).control(),
                instructions@,
                now,
            ),
    {
        self.flow.open_cascade(now);
        self.opening(GUIDANCE_TASK, true);
        match guide(&mut self.flow, &mut self.base_req, &StepConfig::default(), GUIDANCE) {
            Err(e) => {
                return self.fail(ExtractError::Cascade(e));
            },
            Ok(_) => {},
        }
        match self.closing() {
            Err(e) => {
                return self.fail(ExtractError::Cascade(e));
            },
            Ok(_) => {},
        }
        let task = "We are extracting URLs from text using the instructions:\n".to_owned().concat(
            instructions,
        ).concat(" Briefly describe the criteria of the URLs to be extracted.");
        self.opening(task.as_str(), true);
        self.asking(ExtractPhase::CriteriaDescription)
    }

    /// Collects the candidates and starts the cascade.
    fn run_backend(&mut self, now: u64) -> (action: ExtractAction)
        ensures
            (final(self).control(), action@) == control_start(old(self).control(), now),
    {
        self.primitive = ExactStringPrimitive::default();
        self.flow = CascadeFlow::new(CASCADE_NAME);
        self.phase = ExtractPhase::Finished;
        self.candidate = None;
        self.iteration = 0;
        self.total = 0;
        let mut urls_from_instructions: Vec<String> = Vec::new();
        let instructions = self.instruct_prompt.build_instructions();
        let supporting_material = self.instruct_prompt.build_supporting_material();
        if let Some(text) = &instructions {
            let mut found = extract_urls(text.as_str());
            urls_from_instructions.append(&mut found);
        }
        if let Some(text) = &supporting_material {
            let mut found = extract_urls(text.as_str());
            urls_from_instructions.append(&mut found);
        }
        proof {
            let s = old(self).control();
            assert(views(urls_from_instructions@) =~= urls_in(s.instructions) + urls_in(
                s.material,
            ));
        }
        if urls_from_instructions.len() == 0 {
            return ExtractAction::Done(Err(ExtractError::NoUrlsFound));
        }
        match instructions {
            None => ExtractAction::Done(Err(ExtractError::MissingInstructions)),
            Some(text) => {
                if supporting_material.is_none() {
                    return ExtractAction::Done(Err(ExtractError::MissingSupportingMaterial));
                }
                self.primitive.add_strings_to_allowed(&urls_from_instructions);
                self.set_criteria(text.as_str(), now)
            },
        }
    }

    /// Starts a run at time `now`.
    ///
    /// The URLs in the instructions and in the supporting material become
    /// the candidates. The cascade is opened, the model is shown examples,
    /// and the request is set up for the step in which it describes the
    /// criteria. A run does not start without a URL, without instructions
    /// or without material; nothing is asked of the backend then.
    pub fn start(&mut self, now: u64) -> (action: ExtractAction)
        ensures
            (final(self).control(), action@) == control_start(old(self).control(), now),
    {
        self.run_backend(now)
    }

    /// Takes the outcome of the awaited step's request and says what to do next.
    ///
    /// The step under way takes the outcome. A failed request and a
    /// response that is no value end the run with that error. Else the
    /// workflow goes on as the value says: from the criteria to the
    /// selection, from a pick to its validation, from a rejected pick to
    /// the question whether any candidate is left that can qualify, and
    /// from an accepted pick, or a "yes" to that question, to the next
    /// pick in a round of its own. The run ends with what was accepted
    /// when the model declares that nothing qualifies, when enough URLs
    /// were accepted, when every candidate had its turn, and when the
    /// model says that none of the candidates left can qualify. The
    /// cascade is then closed at time `now`.
    pub fn advance(&mut self, outcome: Result<CompletionResponse, CompletionError>, now: u64) -> (action:
        ExtractAction)
        ensures
            (final(self).control(), action@) == control_step(old(self).control(), outcome, now),
    {
        match self.phase {
            ExtractPhase::Idle => {
                return ExtractAction::Done(Err(ExtractError::NotRunning));
            },
            ExtractPhase::Finished => {
                return ExtractAction::Done(Err(ExtractError::NotRunning));
            },
            _ => {},
        }
        let value = match end_step(&mut self.flow, &mut self.base_req, outcome) {
            Err(e) => {
                return self.abort(ExtractError::Cascade(e));
            },
            Ok(v) => v,
        };
        match self.phase {
            ExtractPhase::Extract => match value {
                None => self.closing_finish(now),
                Some(url) => {
                    self.primitive.remove_string_from_allowed(url.as_str());
                    self.candidate = Some(url);
                    self.validate_step()
                },
            },
            _ => match value {
                None => self.abort(ExtractError::MissingResult),
                Some(text) => match self.phase {
                    ExtractPhase::CriteriaDescription => self.on_description(text),
                    ExtractPhase::CriteriaStatement => self.on_statement(text, now),
                    ExtractPhase::Validate => self.on_verdict(text, now),
                    _ => self.on_remaining(text, now),
                },
            },
        }
    }

    /// The model has described the criteria: it is asked to put them as a statement.
    fn on_description(&mut self, description: String) -> (action: ExtractAction)
        ensures
            (final(self).control(), action@) == on_description(old(self).control(), description@),
    {
        let instructions = match self.instruct_prompt.build_instructions() {
            Some(i) => i,
            None => String::new(),
        };
        let task = "Reframe the instructions and criteria into a statment used to evaluate if a URL should be extracted. This statement should have a boolean answer. The answer should represent whether or not the URL satisfies the criteria. This should be a single sentence 'is' statment; as in, 'The URL is <criteria>: true or false'.\nCriteria:\n".to_owned().concat(
            description.as_str(),
        ).concat("\nInstructions:\n").concat(instructions.as_str());
        match self.closing() {
            Err(e) => self.fail(ExtractError::Cascade(e)),
            Ok(_) => {
                self.opening(task.as_str(), true);
                self.asking(ExtractPhase::CriteriaStatement)
            },
        }
    }

    /// The model has stated the criteria: the selection begins.
    fn on_statement(&mut self, statement: String, now: u64) -> (action: ExtractAction)
        ensures
            (final(self).control(), action@) == on_statement(
                old(self).control(),
                statement@,
                now,
            ),
    {
        match self.closing() {
            Err(e) => self.fail(ExtractError::Cascade(e)),
            Ok(_) => {
                self.criteria = Some(statement);
                self.run_cascade(now)
            },
        }
    }

    /// The model has judged the pick: an accepted pick is a result and
    /// the next pick follows; after a rejected pick the model is asked
    /// about the candidates that are left.
    fn on_verdict(&mut self, answer: String, now: u64) -> (action: ExtractAction)
        ensures
            (final(self).control(), action@) == on_verdict(old(self).control(), answer@, now),
    {
        match BooleanPrimitive::default().parse(answer.as_str()) {
            Err(e) => self.abort(ExtractError::Cascade(CascadeError::Parse(e))),
            Ok(true) => {
                let url = match clone_opt(&self.candidate) {
                    Some(u) => u,
                    None => String::new(),
                };
                let ghost before = views(self.results@);
                self.results.push(url);
                assert(views(self.results@) =~= before.push(or_empty(opt_view(self.candidate))));
                self.closing_later_pick(now)
            },
            Ok(false) => self.check_for_remaining(),
        }
    }

    /// The model has judged the candidates that are left: after a "yes"
    /// the next pick follows, a "no" ends the selection.
    fn on_remaining(&mut self, answer: String, now: u64) -> (action: ExtractAction)
        ensures
            (final(self).control(), action@) == on_remaining(old(self).control(), answer@, now),
    {
        match set_suffix(&mut self.flow, CHECKED) {
            Err(e) => {
                return self.fail(ExtractError::Cascade(e));
            },
            Ok(_) => {},
        }
        match self.closing() {
            Err(e) => {
                return self.fail(ExtractError::Cascade(e));
            },
            Ok(_) => {},
        }
        match BooleanPrimitive::default().parse(answer.as_str()) {
            Err(e) => self.fail(ExtractError::Cascade(CascadeError::Parse(e))),
            Ok(true) => self.later_pick(now),
            Ok(false) => self.finish(now),
        }
    }

    /// The request configuration that the steps run under.
    pub fn config(&mut self) -> (config: &mut RequestConfig)
        ensures
            *config == old(self).base_req.config,
            *final(self) == (ExtractUrls {
                base_req: CompletionRequest { config: *final(config), ..old(self).base_req },
                ..*old(self)
            }),
    {
        &mut self.base_req.config
    }

    /// Forgets the caller's input and the conversation.
    pub fn reset_request(&mut self)
        ensures
            final(self).control() == (ControlState {
                instructions: None,
                material: None,
                request: forgotten(old(self).control().request),
                ..old(self).control()
            }),
    {
        self.instruct_prompt.reset_instruct_prompt();
        self.base_req.reset_completion_request();
    }

    /// The caller's input.
    pub fn instruct_prompt_mut(&mut self) -> (prompt: &mut InstructPrompt)
        ensures
            *prompt == old(self).instruct_prompt,
            *final(self) == (ExtractUrls { instruct_prompt: *final(prompt), ..*old(self) }),
    {
        &mut self.instruct_prompt
    }
}

} // verus!

//! A workflow's hold on its cascade: the shapes that a flow has between
//! and during steps, and the moves from one shape to the next.

use vstd::prelude::*;
use vstd::string::*;
use crate::cascade::error::{result_view, CascadeError, CascadeErrorView};
use crate::cascade::flow::{
    current_result,
    elapsed,
    flow_closed,
    lemma_first_unclosed,
    CascadeFlow,
    FlowState,
    FlowView,
};
use crate::cascade::round::{
    closed,
    executed_prefix,
    finished,
    latest_result,
    lemma_executed_prefix_bounds,
    lemma_executed_prefix_is,
    next_step,
    opened,
    step_added,
    RoundState,
    RoundView,
    StepAction,
};
use crate::cascade::step::{
    requested_tokens,
    StepConfig,
    StepConfigView,
    StepKind,
    StepView,
};
use crate::primitives::grammar::{parsed, refused, rendered_text, GrammarView, ParseErrorView};
use crate::requests::error::CompletionError;
use crate::requests::request::{CompletionRequest, RequestView};
use crate::requests::response::CompletionResponse;
use crate::requests::stop_sequence::{opt_view, CompletionFinishReason, StoppingSequence};

verus! {

/// Every round but the last is closed.
pub open spec fn earlier_rounds_closed(flow: FlowView) -> bool {
    forall|j: int|
        0 <= j < flow.rounds.len() - 1 ==> (#[trigger] flow.rounds[j]).state == RoundState::Closed
}

/// Every round is closed.
pub open spec fn all_rounds_closed(flow: FlowView) -> bool {
    forall|j: int|
        0 <= j < flow.rounds.len() ==> (#[trigger] flow.rounds[j]).state == RoundState::Closed
}

/// The flow is open and between rounds.
pub open spec fn between_rounds(flow: FlowView) -> bool {
    flow.state == FlowState::Open && all_rounds_closed(flow)
}

/// The flow is open, its last round is open, and no step's request is
/// under way: the round can be closed.
pub open spec fn in_round(flow: FlowView) -> bool {
    &&& flow.state == FlowState::Open
    &&& flow.rounds.len() > 0
    &&& earlier_rounds_closed(flow)
    &&& flow.rounds.last().state == RoundState::Open
    &&& !flow.rounds.last().step_in_progress
}

/// The flow is open, its last round is open, and every step of that
/// round has run.
pub open spec fn between_steps(flow: FlowView) -> bool {
    &&& flow.state == FlowState::Open
    &&& flow.rounds.len() > 0
    &&& earlier_rounds_closed(flow)
    &&& flow.rounds.last().state == RoundState::Open
    &&& !flow.rounds.last().step_in_progress
    &&& executed_prefix(flow.rounds.last().steps) == flow.rounds.last().steps.len()
}

/// The configuration of the last step of the last round.
pub open spec fn awaited(flow: FlowView) -> StepConfigView {
    flow.rounds.last().steps.last().config
}

/// The flow is open, its last round is open, and the request of that
/// round's last step is under way.
pub open spec fn awaiting(flow: FlowView) -> bool {
    &&& flow.state == FlowState::Open
    &&& flow.rounds.len() > 0
    &&& earlier_rounds_closed(flow)
    &&& flow.rounds.last().state == RoundState::Open
    &&& flow.rounds.last().step_in_progress
    &&& flow.rounds.last().steps.len() > 0
    &&& executed_prefix(flow.rounds.last().steps) == flow.rounds.last().steps.len() - 1
}

/// Whether a request is set up for a step with `config`.
pub open spec fn prepared_for(request: RequestView, config: StepConfigView) -> bool {
    &&& request.engine.required
    &&& request.done == Some(config.stop_word_done)
    &&& request.no_result == config.stop_word_no_result
    &&& request.grammar == rendered_text(config.grammar)
    &&& request.engine.config.cache_prompt == config.cache_prompt
    &&& request.engine.config.requested_response_tokens == requested_tokens(config.grammar)
}

/// What an awaited step makes of the outcome of its request.
pub enum Reading {
    /// The request failed.
    RequestFailed(CompletionError),
    /// The response is no value of the step's grammar.
    Refused(ParseErrorView),
    /// The step has run, with this value or with none.
    Value(Option<Seq<char>>),
}

/// What a step with `grammar` makes of `outcome`.
pub open spec fn reading(
    grammar: GrammarView,
    outcome: Result<CompletionResponse, CompletionError>,
) -> Reading {
    match outcome {
        Err(e) => Reading::RequestFailed(e),
        Ok(response) => match response.finish_reason {
            CompletionFinishReason::MatchingStoppingSequence(StoppingSequence::NullResult(_)) =>
                Reading::Value(None),
            _ => match parsed(grammar, response.content@) {
                Some(value) => Reading::Value(Some(value)),
                None => Reading::Refused(refused(grammar, response.content@)),
            },
        },
    }
}

/// The flow with `round` in place of its last round.
pub open spec fn with_last(flow: FlowView, round: RoundView) -> FlowView {
    FlowView { rounds: flow.rounds.update(flow.rounds.len() - 1, round), ..flow }
}

/// A round for `task` that has not been opened. With `separated` a space
/// stands between its steps, else nothing.
pub open spec fn fresh_round(task: Seq<char>, separated: bool) -> RoundView {
    RoundView {
        task,
        steps: Seq::empty(),
        step_separator: if separated {
            Some(' ')
        } else {
            None
        },
        state: RoundState::Unopened,
        step_in_progress: false,
    }
}

/// A round for `task` is added to the flow and opened.
pub open spec fn round_opened(
    flow: FlowView,
    request: RequestView,
    task: Seq<char>,
    separated: bool,
) -> (FlowView, RequestView) {
    let round = opened(fresh_round(task, separated), request);
    (FlowView { rounds: flow.rounds.push(round.0), ..flow }, round.1)
}

/// The last round of the flow is closed.
pub open spec fn round_closed(flow: FlowView, request: RequestView) -> (
    FlowView,
    RequestView,
    Result<(), CascadeErrorView>,
) {
    if flow.rounds.len() == 0 {
        (flow, request, Err(CascadeErrorView::NoRounds))
    } else {
        let round = closed(flow.rounds.last(), request);
        (with_last(flow, round.0), round.1, round.2)
    }
}

/// A step is added to the last round, and the round runs its next step.
pub open spec fn step_run(
    flow: FlowView,
    request: RequestView,
    kind: StepKind,
    config: StepConfigView,
    content: Option<Seq<char>>,
) -> (FlowView, RequestView, Result<StepAction, CascadeErrorView>) {
    if flow.rounds.len() == 0 {
        (flow, request, Err(CascadeErrorView::NoRounds))
    } else {
        let round = next_step(step_added(flow.rounds.last(), kind, config, content), request);
        (with_last(flow, round.0), round.1, round.2)
    }
}

/// The value of an optional value that may be absent.
pub open spec fn flattened(value: Option<Option<Seq<char>>>) -> Option<Seq<char>> {
    match value {
        Some(v) => v,
        None => None,
    }
}

/// The step under way in the last round takes the outcome of its
/// request; the answer is the flow's current result.
pub open spec fn step_ended(
    flow: FlowView,
    request: RequestView,
    outcome: Result<CompletionResponse, CompletionError>,
) -> (FlowView, RequestView, Result<Option<Seq<char>>, CascadeErrorView>) {
    if flow.rounds.len() == 0 {
        (flow, request, Err(CascadeErrorView::NoRounds))
    } else {
        let round = finished(flow.rounds.last(), request, outcome);
        let after = with_last(flow, round.0);
        (
            after,
            round.1,
            match round.2 {
                Ok(_) => Ok(flattened(current_result(after.rounds))),
                Err(e) => Err(e),
            },
        )
    }
}

/// The last step of the last round gets `suffix` as the text that follows its content.
pub open spec fn suffix_set(flow: FlowView, suffix: Seq<char>) -> (
    FlowView,
    Result<(), CascadeErrorView>,
) {
    if flow.rounds.len() == 0 {
        (flow, Err(CascadeErrorView::NoRounds))
    } else if flow.rounds.last().steps.len() == 0 {
        (flow, Err(CascadeErrorView::NoSteps))
    } else {
        let round = flow.rounds.last();
        (
            with_last(
                flow,
                RoundView {
                    steps: round.steps.update(
                        round.steps.len() - 1,
                        StepView { dynamic_suffix: Some(suffix), ..round.steps.last() },
                    ),
                    ..round
                },
            ),
            Ok(()),
        )
    }
}

/// Opening a round between rounds leaves the flow between steps, in a
/// round without steps.
pub proof fn lemma_round_opened(
    flow: FlowView,
    request: RequestView,
    task: Seq<char>,
    separated: bool,
)
    requires
        between_rounds(flow),
    ensures
        between_steps(round_opened(flow, request, task, separated).0),
        round_opened(flow, request, task, separated).0.rounds.len() == flow.rounds.len() + 1,
        round_opened(flow, request, task, separated).0.rounds.last().steps.len() == 0,
        round_opened(flow, request, task, separated).0.rounds.last().task == task,
        round_opened(flow, request, task, separated).0.start_time == flow.start_time,
{
    let after = round_opened(flow, request, task, separated).0;
    assert forall|j: int| 0 <= j < after.rounds.len() - 1 implies (#[trigger] after.rounds[j]).state
        == RoundState::Closed by {
        assert(after.rounds[j] == flow.rounds[j]);
    }
}

/// Closing the last round, while it is open and no step is under way,
/// succeeds and leaves the flow between rounds.
pub proof fn lemma_round_closed(flow: FlowView, request: RequestView)
    requires
        in_round(flow),
    ensures
        round_closed(flow, request).2 is Ok,
        between_rounds(round_closed(flow, request).0),
        round_closed(flow, request).0.rounds.len() == flow.rounds.len(),
        round_closed(flow, request).0.start_time == flow.start_time,
{
    let after = round_closed(flow, request).0;
    assert forall|j: int| 0 <= j < after.rounds.len() implies (#[trigger] after.rounds[j]).state
        == RoundState::Closed by {
        if j < flow.rounds.len() - 1 {
            assert(after.rounds[j] == flow.rounds[j]);
        }
    }
}

/// Between steps, the step that is added is the one that runs next.
pub proof fn lemma_step_added(
    round: RoundView,
    kind: StepKind,
    config: StepConfigView,
    content: Option<Seq<char>>,
)
    requires
        executed_prefix(round.steps) == round.steps.len(),
    ensures
        executed_prefix(step_added(round, kind, config, content).steps) == round.steps.len(),
{
    let added = step_added(round, kind, config, content).steps;
    lemma_executed_prefix_bounds(round.steps);
    assert forall|j: int| 0 <= j < round.steps.len() implies (#[trigger] added[j]).executed by {
        assert(added[j] == round.steps[j]);
    }
    lemma_executed_prefix_is(added, round.steps.len() as int);
}

/// Beginning a step between steps sets the request up and leaves the
/// flow awaiting that step.
pub proof fn lemma_step_begun(flow: FlowView, request: RequestView, config: StepConfigView)
    requires
        between_steps(flow),
    ensures
        step_run(flow, request, StepKind::Inference, config, None).2 == Ok::<
            StepAction,
            CascadeErrorView,
        >(StepAction::Request),
        awaiting(step_run(flow, request, StepKind::Inference, config, None).0),
        awaited(step_run(flow, request, StepKind::Inference, config, None).0) == config,
        prepared_for(step_run(flow, request, StepKind::Inference, config, None).1, config),
        step_run(flow, request, StepKind::Inference, config, None).0.rounds.len()
            == flow.rounds.len(),
        step_run(flow, request, StepKind::Inference, config, None).0.start_time
            == flow.start_time,
{
    let after = step_run(flow, request, StepKind::Inference, config, None).0;
    lemma_step_added(flow.rounds.last(), StepKind::Inference, config, None);
    assert forall|j: int| 0 <= j < after.rounds.len() - 1 implies (#[trigger] after.rounds[j]).state
        == RoundState::Closed by {
        assert(after.rounds[j] == flow.rounds[j]);
    }
}

/// Showing a guidance step between steps runs it and leaves the flow between steps.
pub proof fn lemma_step_guided(
    flow: FlowView,
    request: RequestView,
    config: StepConfigView,
    content: Seq<char>,
)
    requires
        between_steps(flow),
    ensures
        step_run(flow, request, StepKind::Guidance, config, Some(content)).2 == Ok::<
            StepAction,
            CascadeErrorView,
        >(StepAction::Done),
        between_steps(step_run(flow, request, StepKind::Guidance, config, Some(content)).0),
        step_run(flow, request, StepKind::Guidance, config, Some(content)).0.rounds.len()
            == flow.rounds.len(),
        step_run(flow, request, StepKind::Guidance, config, Some(content)).0.start_time
            == flow.start_time,
{
    let after = step_run(flow, request, StepKind::Guidance, config, Some(content)).0;
    let added = step_added(flow.rounds.last(), StepKind::Guidance, config, Some(content));
    lemma_step_added(flow.rounds.last(), StepKind::Guidance, config, Some(content));
    let steps = after.rounds.last().steps;
    assert forall|j: int| 0 <= j < steps.len() implies (#[trigger] steps[j]).executed by {
        if j < steps.len() - 1 {
            lemma_executed_prefix_bounds(flow.rounds.last().steps);
            assert(steps[j] == flow.rounds.last().steps[j]);
        }
    }
    lemma_executed_prefix_is(steps, steps.len() as int);
    assert forall|j: int| 0 <= j < after.rounds.len() - 1 implies (#[trigger] after.rounds[j]).state
        == RoundState::Closed by {
        assert(after.rounds[j] == flow.rounds[j]);
    }
}

/// The awaited step reads the outcome of its request: a failed request
/// and a refused response come back as errors, and a value is the flow's
/// current result, with the flow between steps.
pub proof fn lemma_step_ended(
    flow: FlowView,
    request: RequestView,
    outcome: Result<CompletionResponse, CompletionError>,
)
    requires
        awaiting(flow),
    ensures
        match reading(awaited(flow).grammar, outcome) {
            Reading::RequestFailed(e) => step_ended(flow, request, outcome).2 == Err::<
                Option<Seq<char>>,
                CascadeErrorView,
            >(CascadeErrorView::Request(e)),
            Reading::Refused(e) => step_ended(flow, request, outcome).2 == Err::<
                Option<Seq<char>>,
                CascadeErrorView,
            >(CascadeErrorView::Parse(e)),
            Reading::Value(value) => {
                &&& step_ended(flow, request, outcome).2 == Ok::<
                    Option<Seq<char>>,
                    CascadeErrorView,
                >(value)
                &&& between_steps(step_ended(flow, request, outcome).0)
                &&& step_ended(flow, request, outcome).0.rounds.last().steps.len() > 0
                &&& step_ended(flow, request, outcome).1 == request
            },
        },
        in_round(step_ended(flow, request, outcome).0),
        step_ended(flow, request, outcome).0.rounds.len() == flow.rounds.len(),
        step_ended(flow, request, outcome).0.start_time == flow.start_time,
{
    let after = step_ended(flow, request, outcome).0;
    let old_steps = flow.rounds.last().steps;
    lemma_executed_prefix_bounds(old_steps);
    assert forall|j: int| 0 <= j < after.rounds.len() - 1 implies (#[trigger] after.rounds[j]).state
        == RoundState::Closed by {
        assert(after.rounds[j] == flow.rounds[j]);
    }
    if step_ended(flow, request, outcome).2 is Ok {
        let steps = after.rounds.last().steps;
        assert forall|j: int| 0 <= j < steps.len() implies (#[trigger] steps[j]).executed by {
            if j < steps.len() - 1 {
                assert(steps[j] == old_steps[j]);
            }
        }
        lemma_executed_prefix_is(steps, steps.len() as int);
        assert(latest_result(steps) == Some(steps.last().primitive_result));
        assert(current_result(after.rounds) == Some(steps.last().primitive_result));
        assert forall|j: int| 0 <= j < after.rounds.len() - 1 implies (
        #[trigger] after.rounds[j]).state == RoundState::Closed by {
            assert(after.rounds[j] == flow.rounds[j]);
        }
    }
}

/// Setting the suffix of the step that ran last keeps the flow between steps.
pub proof fn lemma_suffix_set(flow: FlowView, suffix: Seq<char>)
    requires
        between_steps(flow),
        flow.rounds.last().steps.len() > 0,
    ensures
        suffix_set(flow, suffix).1 is Ok,
        between_steps(suffix_set(flow, suffix).0),
        suffix_set(flow, suffix).0.rounds.len() == flow.rounds.len(),
        suffix_set(flow, suffix).0.rounds.last().steps.len() > 0,
        suffix_set(flow, suffix).0.start_time == flow.start_time,
{
    let after = suffix_set(flow, suffix).0;
    let old_steps = flow.rounds.last().steps;
    let steps = after.rounds.last().steps;
    lemma_executed_prefix_bounds(old_steps);
    assert forall|j: int| 0 <= j < steps.len() implies (#[trigger] steps[j]).executed by {
        if j < steps.len() - 1 {
            assert(steps[j] == old_steps[j]);
        } else {
            assert(old_steps[j].executed);
        }
    }
    lemma_executed_prefix_is(steps, steps.len() as int);
    assert forall|j: int| 0 <= j < after.rounds.len() - 1 implies (#[trigger] after.rounds[j]).state
        == RoundState::Closed by {
        assert(after.rounds[j] == flow.rounds[j]);
    }
}

/// A flow between rounds that has a round can be closed, and is then
/// closed with every round closed.
pub proof fn lemma_flow_closed(flow: FlowView, now: u64)
    requires
        between_rounds(flow),
        flow.rounds.len() > 0,
    ensures
        flow_closed(flow, now).1 is Ok,
        flow_closed(flow, now).0.state == FlowState::Closed,
        flow_closed(flow, now).0.rounds == flow.rounds,
        flow_closed(flow, now).0.duration == elapsed(flow.start_time, now),
        all_rounds_closed(flow_closed(flow, now).0),
{
    lemma_first_unclosed(flow.rounds);
}

/// Adds a round for `task` to a flow and opens it. With `separated` a
/// space stands between the round's steps, else nothing.
pub fn open_round(
    flow: &mut CascadeFlow,
    request: &mut CompletionRequest,
    task: &str,
    separated: bool,
)
    ensures
        (final(flow)@, final(request)@) == round_opened(
            old(flow)@,
            old(request)@,
            task@,
            separated,
        ),
{
    let ghost before = flow@;
    let round = flow.new_round(task);
    if !separated {
        round.step_separator = None;
    }
    assert(round@ == fresh_round(task@, separated)) by {
        assert(round@.steps =~= Seq::empty());
    }
    let opened = round.open_round(request);
    proof {
        assert(flow@.rounds =~= before.rounds.push(round@));
    }
}

/// Closes the last round of a flow.
pub fn close_round(flow: &mut CascadeFlow, request: &mut CompletionRequest) -> (result: Result<
    (),
    CascadeError,
>)
    ensures
        (final(flow)@, final(request)@, result_view(result)) == round_closed(
            old(flow)@,
            old(request)@,
        ),
{
    let ghost before = flow@;
    match flow.last_round() {
        Err(e) => Err(e),
        Ok(round) => {
            assert(round@ == before.rounds.last());
            let closed = round.close_round(request);
            proof {
                assert(flow@.rounds =~= before.rounds.update(before.rounds.len() - 1, round@));
            }
            closed
        },
    }
}

/// Adds a guidance step with `content` to the last round of a flow and
/// runs the round's next step.
pub fn guide(
    flow: &mut CascadeFlow,
    request: &mut CompletionRequest,
    config: &StepConfig,
    content: &str,
) -> (result: Result<StepAction, CascadeError>)
    ensures
        (final(flow)@, final(request)@, result_view(result)) == step_run(
            old(flow)@,
            old(request)@,
            StepKind::Guidance,
            config@,
            Some(content@),
        ),
{
    let ghost before = flow@;
    match flow.last_round() {
        Err(e) => Err(e),
        Ok(round) => {
            let ghost old_round = round@;
            assert(old_round == before.rounds.last());
            round.add_guidance_step(config, content);
            proof {
                assert(round@.steps =~= step_added(
                    old_round,
                    StepKind::Guidance,
                    config@,
                    Some(content@),
                ).steps);
            }
            let result = round.run_next_step(request);
            proof {
                assert(flow@.rounds =~= before.rounds.update(before.rounds.len() - 1, round@));
            }
            result
        },
    }
}

/// Adds an inference step with `config` to the last round of a flow and
/// runs the round's next step.
pub fn begin_step(flow: &mut CascadeFlow, request: &mut CompletionRequest, config: &StepConfig) -> (result:
    Result<StepAction, CascadeError>)
    ensures
        (final(flow)@, final(request)@, result_view(result)) == step_run(
            old(flow)@,
            old(request)@,
            StepKind::Inference,
            config@,
            None,
        ),
{
    let ghost before = flow@;
    match flow.last_round() {
        Err(e) => Err(e),
        Ok(round) => {
            let ghost old_round = round@;
            assert(old_round == before.rounds.last());
            round.add_inference_step(config);
            proof {
                assert(round@.steps =~= step_added(
                    old_round,
                    StepKind::Inference,
                    config@,
                    None,
                ).steps);
            }
            let result = round.run_next_step(request);
            proof {
                assert(flow@.rounds =~= before.rounds.update(before.rounds.len() - 1, round@));
            }
            result
        },
    }
}

/// Hands the outcome of a request to the step under way in the last
/// round of a flow, and answers with the flow's current result.
pub fn end_step(
    flow: &mut CascadeFlow,
    request: &mut CompletionRequest,
    outcome: Result<CompletionResponse, CompletionError>,
) -> (result: Result<Option<String>, CascadeError>)
    ensures
        final(flow)@ == step_ended(old(flow)@, old(request)@, outcome).0,
        final(request)@ == step_ended(old(flow)@, old(request)@, outcome).1,
        match step_ended(old(flow)@, old(request)@, outcome).2 {
            Ok(value) => result matches Ok(v) && opt_view(v) == value,
            Err(e) => result matches Err(x) && x@ == e,
        },
{
    let ghost before = flow@;
    let finished = match flow.last_round() {
        Err(e) => Err(e),
        Ok(round) => {
            assert(round@ == before.rounds.last());
            let finished = round.finish_step(request, outcome);
            proof {
                assert(flow@.rounds =~= before.rounds.update(before.rounds.len() - 1, round@));
            }
            finished
        },
    };
    match finished {
        Err(e) => Err(e),
        Ok(_) => Ok(flow.primitive_result()),
    }
}

/// Sets the text that follows the content of the last step of the last
/// round of a flow.
pub fn set_suffix(flow: &mut CascadeFlow, suffix: &str) -> (result: Result<(), CascadeError>)
    ensures
        (final(flow)@, result_view(result)) == suffix_set(old(flow)@, suffix@),
{
    let ghost before = flow@;
    match flow.last_round() {
        Err(e) => Err(e),
        Ok(round) => {
            let ghost old_round = round@;
            assert(old_round == before.rounds.last());
            match round.last_step() {
                Err(e) => {
                    proof {
                        assert(flow@.rounds =~= before.rounds);
                    }
                    Err(e)
                },
                Ok(step) => {
                    step.set_dynamic_suffix(suffix.to_owned());
                    proof {
                        assert(round@.steps =~= old_round.steps.update(
                            old_round.steps.len() - 1,
                            StepView { dynamic_suffix: Some(suffix@), ..old_round.steps.last() },
                        ));
                        assert(flow@.rounds =~= before.rounds.update(
                            before.rounds.len() - 1,
                            round@,
                        ));
                    }
                    Ok(())
                },
            }
        },
    }
}

} // verus!

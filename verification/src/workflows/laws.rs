//! What holds of the extraction workflow over whole runs.

use vstd::prelude::*;
use super::extract::{
    abort,
    selection_begun,
    asking,
    awaited_config,
    closing,
    closing_finish,
    closing_later_pick,
    control_start,
    control_step,
    finish,
    first_pick,
    guidance_config,
    later_pick,
    on_description,
    on_remaining,
    on_statement,
    on_verdict,
    opening,
    shown,
    urls_in,
    ControlState,
    ExtractActionView,
    ExtractErrorView,
    ExtractPhase,
    APOLOGY,
    CHECKED,
    GUIDANCE,
    GUIDANCE_TASK,
    NEXT_TASK,
};
use super::session::{
    all_rounds_closed,
    awaited,
    awaiting,
    between_rounds,
    between_steps,
    in_round,
    lemma_flow_closed,
    lemma_round_closed,
    lemma_round_opened,
    lemma_step_begun,
    lemma_step_ended,
    lemma_step_guided,
    lemma_suffix_set,
    prepared_for,
    reading,
    step_ended,
    Reading,
};
use crate::cascade::flow::{elapsed, FlowState};
use crate::cascade::step::or_empty;
use crate::primitives::exact_string::{with_added, without};
use crate::primitives::grammar::GrammarView;
use crate::requests::error::CompletionError;
use crate::requests::response::CompletionResponse;

verus! {

/// An outcome of a step's request.
pub type Outcome = Result<CompletionResponse, CompletionError>;

/// Whether a run is under way in the phase.
pub open spec fn running(phase: ExtractPhase) -> bool {
    !(phase is Idle) && !(phase is Finished)
}

/// Whether the phase belongs to the selection.
pub open spec fn selecting(phase: ExtractPhase) -> bool {
    phase is Extract || phase is Validate || phase is CheckRemaining
}

/// The workflow is in step with its cascade: while a run is under way,
/// the cascade awaits the step of the phase, set up as the state says,
/// and a selection counts its picks from one.
pub open spec fn in_step(s: ControlState) -> bool {
    running(s.phase) ==> {
        &&& awaiting(s.flow)
        &&& awaited(s.flow) == awaited_config(s)
        &&& selecting(s.phase) ==> s.iteration >= 1
    }
}

/// Whether `after` holds the input, the candidates, the pick under
/// judgement, the criteria, the results and the limits of `before`. The
/// two may differ in phase, pick number, cascade and request.
pub open spec fn same_selection(before: ControlState, after: ControlState) -> bool {
    &&& after.results == before.results
    &&& after.allowed == before.allowed
    &&& after.candidate == before.candidate
    &&& after.criteria == before.criteria
    &&& after.max_urls == before.max_urls
    &&& after.total == before.total
    &&& after.instructions == before.instructions
    &&& after.material == before.material
}

/// A failure that the backend or the model causes.
pub open spec fn caused_outside(e: ExtractErrorView) -> bool {
    e is Request || e is Parse || e is MissingResult
}

/// What a move of a workflow that is in step leads to: a request for the
/// step of the new phase, with the workflow in step again; or a result
/// whose cascade is closed, with every round closed, after the time from
/// `start` to `now`; or a failure that the backend or the model caused,
/// with every round of the cascade closed.
pub open spec fn sound(next: (ControlState, ExtractActionView), start: u64, now: u64) -> bool {
    match next.1 {
        ExtractActionView::Request => {
            &&& running(next.0.phase)
            &&& in_step(next.0)
            &&& next.0.flow.start_time == start
            &&& prepared_for(next.0.request, awaited_config(next.0))
        },
        ExtractActionView::Finished { results, criteria, duration, workflow } => {
            &&& next.0.phase is Finished
            &&& workflow.state == FlowState::Closed
            &&& workflow.rounds.len() > 0
            &&& all_rounds_closed(workflow)
            &&& workflow.start_time == start
            &&& workflow.duration == duration
            &&& duration == elapsed(start, now)
            &&& results == shown(next.0.results)
            &&& criteria == or_empty(next.0.criteria)
        },
        ExtractActionView::Failed(e) => {
            &&& next.0.phase is Finished
            &&& caused_outside(e)
            &&& next.0.flow.state == FlowState::Open
            &&& next.0.flow.rounds.len() > 0
            &&& all_rounds_closed(next.0.flow)
            &&& next.0.flow.start_time == start
        },
    }
}

/// Giving a run up while its last round can be closed leaves every round
/// closed, and what was accepted as it was.
proof fn lemma_abort(s: ControlState, e: ExtractErrorView)
    requires
        in_round(s.flow),
        caused_outside(e),
    ensures
        abort(s, e).1 == ExtractActionView::Failed(e),
        sound(abort(s, e), s.flow.start_time, 0),
        abort(s, e).0.flow.rounds.len() == s.flow.rounds.len(),
        same_selection(s, abort(s, e).0),
        abort(s, e).0.iteration == s.iteration,
{
    lemma_round_closed(s.flow, s.request);
}

/// Asking for a step between steps leads to a request, with the workflow in step.
proof fn lemma_asking(s: ControlState, phase: ExtractPhase)
    requires
        between_steps(s.flow),
        running(phase),
        selecting(phase) ==> s.iteration >= 1,
    ensures
        asking(s, phase).1 == ExtractActionView::Request,
        sound(asking(s, phase), s.flow.start_time, 0),
        asking(s, phase).0.flow.rounds.len() == s.flow.rounds.len(),
        same_selection(s, asking(s, phase).0),
        asking(s, phase).0.iteration == s.iteration,
        asking(s, phase).0.phase == phase,
{
    lemma_step_begun(s.flow, s.request, awaited_config(ControlState { phase, ..s }));
}

/// Finishing between rounds hands out the cascade, closed.
proof fn lemma_finish(s: ControlState, now: u64)
    requires
        between_rounds(s.flow),
        s.flow.rounds.len() > 0,
    ensures
        finish(s, now).1 is Finished,
        sound(finish(s, now), s.flow.start_time, now),
        finish(s, now).1->workflow.rounds == s.flow.rounds,
        same_selection(s, finish(s, now).0),
{
    lemma_flow_closed(s.flow, now);
}

/// Closing the last round between steps leaves the workflow between rounds.
proof fn lemma_closing(s: ControlState)
    requires
        between_steps(s.flow),
    ensures
        closing(s).1 is Ok,
        between_rounds(closing(s).0.flow),
        closing(s).0.flow.rounds.len() == s.flow.rounds.len(),
        closing(s).0.flow.start_time == s.flow.start_time,
        closing(s).0 == (ControlState {
            flow: closing(s).0.flow,
            request: closing(s).0.request,
            ..s
        }),
{
    lemma_round_closed(s.flow, s.request);
}

/// Opening a round between rounds leaves the workflow between steps.
proof fn lemma_opening(s: ControlState, task: Seq<char>, separated: bool)
    requires
        between_rounds(s.flow),
    ensures
        between_steps(opening(s, task, separated).flow),
        opening(s, task, separated).flow.rounds.len() == s.flow.rounds.len() + 1,
        opening(s, task, separated).flow.rounds.last().task == task,
        opening(s, task, separated).flow.start_time == s.flow.start_time,
        opening(s, task, separated) == (ControlState {
            flow: opening(s, task, separated).flow,
            request: opening(s, task, separated).request,
            ..s
        }),
{
    lemma_round_opened(s.flow, s.request, task, separated);
}

/// Closing the last round and finishing adds no round.
proof fn lemma_closing_finish(s: ControlState, now: u64)
    requires
        between_steps(s.flow),
    ensures
        closing_finish(s, now).1 is Finished,
        sound(closing_finish(s, now), s.flow.start_time, now),
        closing_finish(s, now).1->workflow.rounds.len() == s.flow.rounds.len(),
        same_selection(s, closing_finish(s, now).0),
{
    lemma_closing(s);
    lemma_finish(closing(s).0, now);
}

/// After a pick, the selection ends or the model picks in a new round.
proof fn lemma_later_pick(s: ControlState, now: u64)
    requires
        between_rounds(s.flow),
        s.flow.rounds.len() > 0,
    ensures
        sound(later_pick(s, now), s.flow.start_time, now),
        same_selection(s, later_pick(s, now).0),
        later_pick(s, now).1 is Request <==> s.iteration < s.total && s.results.len()
            < s.max_urls,
        later_pick(s, now).1 is Request ==> later_pick(s, now).0.phase is Extract
            && later_pick(s, now).0.iteration == s.iteration + 1 && later_pick(
            s,
            now,
        ).0.flow.rounds.len() == s.flow.rounds.len() + 1 && later_pick(
            s,
            now,
        ).0.flow.rounds.last().task == NEXT_TASK@,
        later_pick(s, now).1 is Finished ==> later_pick(s, now).1->workflow.rounds
            == s.flow.rounds,
{
    if s.iteration >= s.total || s.results.len() >= s.max_urls {
        lemma_finish(s, now);
    } else {
        lemma_opening(s, NEXT_TASK@, false);
        let opened = ControlState { iteration: s.iteration + 1, ..opening(s, NEXT_TASK@, false) };
        lemma_asking(opened, ExtractPhase::Extract);
    }
}

/// Before the first pick, the selection ends or the model picks in the round that is open.
proof fn lemma_first_pick(s: ControlState, now: u64)
    requires
        between_steps(s.flow),
    ensures
        sound(first_pick(s, now), s.flow.start_time, now),
        same_selection(s, first_pick(s, now).0),
        first_pick(s, now).1 is Request <==> s.total >= 1 && s.results.len() < s.max_urls,
        first_pick(s, now).1 is Request ==> first_pick(s, now).0.phase is Extract && first_pick(
            s,
            now,
        ).0.iteration == 1 && first_pick(s, now).0.flow.rounds.len() == s.flow.rounds.len(),
        first_pick(s, now).1 is Finished ==> first_pick(s, now).1->workflow.rounds.len()
            == s.flow.rounds.len(),
{
    if s.total < 1 || s.results.len() >= s.max_urls {
        lemma_closing_finish(s, now);
    } else {
        lemma_asking(ControlState { iteration: 1, ..s }, ExtractPhase::Extract);
    }
}

/// Closing the round of a pick and going on keeps the results.
proof fn lemma_closing_later_pick(s: ControlState, now: u64)
    requires
        between_steps(s.flow),
    ensures
        sound(closing_later_pick(s, now), s.flow.start_time, now),
        same_selection(s, closing_later_pick(s, now).0),
        closing_later_pick(s, now).1 is Request <==> s.iteration < s.total && s.results.len()
            < s.max_urls,
        closing_later_pick(s, now).1 is Request ==> closing_later_pick(s, now).0.phase is Extract
            && closing_later_pick(s, now).0.iteration == s.iteration + 1 && closing_later_pick(
            s,
            now,
        ).0.flow.rounds.len() == s.flow.rounds.len() + 1,
        closing_later_pick(s, now).1 is Finished ==> closing_later_pick(
            s,
            now,
        ).1->workflow.rounds.len() == s.flow.rounds.len(),
{
    lemma_closing(s);
    lemma_later_pick(closing(s).0, now);
}

/// A description of the criteria leads to the step that states them, in a new round.
proof fn lemma_on_description(s: ControlState, description: Seq<char>)
    requires
        between_steps(s.flow),
    ensures
        on_description(s, description).1 == ExtractActionView::Request,
        sound(on_description(s, description), s.flow.start_time, 0),
        on_description(s, description).0.phase is CriteriaStatement,
        on_description(s, description).0.flow.rounds.len() == s.flow.rounds.len() + 1,
        on_description(s, description).0.results == s.results,
        on_description(s, description).0.allowed == s.allowed,
        on_description(s, description).0.max_urls == s.max_urls,
{
    lemma_closing(s);
    let task = super::extract::statement_task(description, or_empty(s.instructions));
    lemma_opening(closing(s).0, task, true);
    lemma_asking(opening(closing(s).0, task, true), ExtractPhase::CriteriaStatement);
}

/// A statement of the criteria leads to the first pick, in a new round.
proof fn lemma_on_statement(s: ControlState, statement: Seq<char>, now: u64)
    requires
        between_steps(s.flow),
    ensures
        sound(on_statement(s, statement, now), s.flow.start_time, now),
        on_statement(s, statement, now).0.results == s.results,
        on_statement(s, statement, now).0.criteria == Some(statement),
        on_statement(s, statement, now).1 is Request ==> on_statement(s, statement, now).0.phase
            is Extract && on_statement(s, statement, now).0.flow.rounds.len()
            == s.flow.rounds.len() + 1 && on_statement(s, statement, now).0.allowed
            == s.allowed,
        on_statement(s, statement, now).1 is Finished ==> on_statement(
            s,
            statement,
            now,
        ).1->workflow.rounds.len() == s.flow.rounds.len() + 1,
        s.allowed.len() > 0 && s.results.len() < s.max_urls ==> on_statement(s, statement, now).1
            is Request,
{
    lemma_closing(s);
    let task = super::extract::selection_task(or_empty(s.material), statement);
    let stated = ControlState { criteria: Some(statement), ..closing(s).0 };
    lemma_opening(stated, task, false);
    lemma_first_pick(ControlState { total: s.allowed.len(), ..opening(stated, task, false) }, now);
}

/// The two words of a logical value differ.
proof fn lemma_true_is_not_false()
    ensures
        "true"@ != "false"@,
{
    reveal_strlit("false");
    reveal_strlit("true");
    assert("false"@.len() == 5);
    assert("true"@.len() == 4);
}

/// A verdict leads to the next pick or to the question about the candidates left.
proof fn lemma_on_verdict(s: ControlState, answer: Seq<char>, now: u64)
    requires
        between_steps(s.flow),
        s.flow.rounds.last().steps.len() > 0,
        s.iteration >= 1,
        answer == "true"@ || answer == "false"@,
    ensures
        sound(on_verdict(s, answer, now), s.flow.start_time, now),
        answer == "false"@ ==> {
            &&& on_verdict(s, answer, now).1 == ExtractActionView::Request
            &&& on_verdict(s, answer, now).0.phase is CheckRemaining
            &&& on_verdict(s, answer, now).0.iteration == s.iteration
            &&& on_verdict(s, answer, now).0.flow.rounds.len() == s.flow.rounds.len()
            &&& same_selection(s, on_verdict(s, answer, now).0)
        },
        answer == "true"@ ==> {
            &&& same_selection(
                ControlState { results: s.results.push(or_empty(s.candidate)), ..s },
                on_verdict(s, answer, now).0,
            )
            &&& on_verdict(s, answer, now).1 is Request <==> s.iteration < s.total
                && s.results.len() + 1 < s.max_urls
            &&& on_verdict(s, answer, now).1 is Request ==> on_verdict(s, answer, now).0.phase
                is Extract && on_verdict(s, answer, now).0.iteration == s.iteration + 1
                && on_verdict(s, answer, now).0.flow.rounds.len() == s.flow.rounds.len() + 1
            &&& on_verdict(s, answer, now).1 is Finished ==> on_verdict(
                s,
                answer,
                now,
            ).1->workflow.rounds.len() == s.flow.rounds.len()
        },
{
    lemma_true_is_not_false();
    if answer == "true"@ {
        lemma_closing_later_pick(
            ControlState { results: s.results.push(or_empty(s.candidate)), ..s },
            now,
        );
    } else {
        lemma_suffix_set(s.flow, APOLOGY@);
        lemma_asking(
            ControlState { flow: super::session::suffix_set(s.flow, APOLOGY@).0, ..s },
            ExtractPhase::CheckRemaining,
        );
    }
}

/// An answer about the candidates left leads to the next pick or ends the selection.
proof fn lemma_on_remaining(s: ControlState, answer: Seq<char>, now: u64)
    requires
        between_steps(s.flow),
        s.flow.rounds.last().steps.len() > 0,
        s.iteration >= 1,
        answer == "true"@ || answer == "false"@,
    ensures
        sound(on_remaining(s, answer, now), s.flow.start_time, now),
        same_selection(s, on_remaining(s, answer, now).0),
        answer == "false"@ ==> on_remaining(s, answer, now).1 is Finished && on_remaining(
            s,
            answer,
            now,
        ).1->workflow.rounds.len() == s.flow.rounds.len(),
        answer == "true"@ ==> {
            &&& on_remaining(s, answer, now).1 is Request <==> s.iteration < s.total
                && s.results.len() < s.max_urls
            &&& on_remaining(s, answer, now).1 is Request ==> on_remaining(s, answer, now).0.phase
                is Extract && on_remaining(s, answer, now).0.iteration == s.iteration + 1
                && on_remaining(s, answer, now).0.flow.rounds.len() == s.flow.rounds.len() + 1
            &&& on_remaining(s, answer, now).1 is Finished ==> on_remaining(
                s,
                answer,
                now,
            ).1->workflow.rounds.len() == s.flow.rounds.len()
        },
{
    lemma_true_is_not_false();
    lemma_suffix_set(s.flow, CHECKED@);
    let marked = ControlState { flow: super::session::suffix_set(s.flow, CHECKED@).0, ..s };
    lemma_closing(marked);
    if answer == "true"@ {
        lemma_later_pick(closing(marked).0, now);
    } else {
        lemma_finish(closing(marked).0, now);
    }
}

/// A move keeps a workflow in step. Whatever the backend answers, a
/// workflow that is in step with its cascade asks for the step of its
/// new phase and is in step again, or ends with a closed cascade in
/// which every round is closed and whose duration is the time since the
/// cascade was opened, or fails for a reason that the backend or the
/// model gave: never because the cascade was used out of order.
pub proof fn law_move_is_sound(s: ControlState, outcome: Outcome, now: u64)
    requires
        running(s.phase),
        in_step(s),
    ensures
        sound(control_step(s, outcome, now), s.flow.start_time, now),
{
    lemma_step_ended(s.flow, s.request, outcome);
    lemma_true_is_not_false();
    let ended = step_ended(s.flow, s.request, outcome);
    let after = ControlState { flow: ended.0, request: ended.1, ..s };
    match reading(awaited_config(s).grammar, outcome) {
        Reading::Value(Some(text)) => {
            match s.phase {
                ExtractPhase::CriteriaDescription => lemma_on_description(after, text),
                ExtractPhase::CriteriaStatement => lemma_on_statement(after, text, now),
                ExtractPhase::Extract => lemma_asking(
                    ControlState {
                        allowed: crate::primitives::exact_string::without(s.allowed, text),
                        candidate: Some(text),
                        ..after
                    },
                    ExtractPhase::Validate,
                ),
                ExtractPhase::Validate => lemma_on_verdict(after, text, now),
                _ => lemma_on_remaining(after, text, now),
            }
        },
        Reading::Value(None) => {
            if s.phase is Extract {
                lemma_closing_finish(after, now);
            } else {
                lemma_abort(after, ExtractErrorView::MissingResult);
            }
        },
        Reading::RequestFailed(e) => lemma_abort(after, ExtractErrorView::Request(e)),
        Reading::Refused(e) => lemma_abort(after, ExtractErrorView::Parse(e)),
    }
}

/// A failed step ends the run with its round closed. When the request
/// of the awaited step fails, or its response is no value of the step's
/// grammar, or the step gives no value where one is needed, the run
/// fails with that reason. The URLs accepted before stay accepted and
/// the candidates stay as they were, no round is added, and no round of
/// the cascade is left open.
pub proof fn law_failed_step_closes_round(s: ControlState, outcome: Outcome, now: u64)
    requires
        running(s.phase),
        in_step(s),
        !(reading(awaited_config(s).grammar, outcome) is Value) || (!(s.phase is Extract)
            && reading(awaited_config(s).grammar, outcome) == Reading::Value(None)),
    ensures
        control_step(s, outcome, now).1 == ExtractActionView::Failed(
            match reading(awaited_config(s).grammar, outcome) {
                Reading::RequestFailed(e) => ExtractErrorView::Request(e),
                Reading::Refused(e) => ExtractErrorView::Parse(e),
                Reading::Value(_) => ExtractErrorView::MissingResult,
            },
        ),
        control_step(s, outcome, now).0.phase is Finished,
        same_selection(s, control_step(s, outcome, now).0),
        control_step(s, outcome, now).0.flow.rounds.len() == s.flow.rounds.len(),
        all_rounds_closed(control_step(s, outcome, now).0.flow),
{
    lemma_step_ended(s.flow, s.request, outcome);
    let ended = step_ended(s.flow, s.request, outcome);
    let after = ControlState { flow: ended.0, request: ended.1, ..s };
    match reading(awaited_config(s).grammar, outcome) {
        Reading::RequestFailed(e) => lemma_abort(after, ExtractErrorView::Request(e)),
        Reading::Refused(e) => lemma_abort(after, ExtractErrorView::Parse(e)),
        Reading::Value(_) => lemma_abort(after, ExtractErrorView::MissingResult),
    }
}

/// A pick leaves the candidates. When the model picks a URL, the URL is
/// one of the candidates; it is taken from them before its validation is
/// asked for, in the same round: the candidates are one fewer, the
/// others keep their order, and where no candidate occurred twice none
/// does now and the pick is not among them. The pick is then judged, and
/// is not yet a result.
pub proof fn law_pick_leaves_candidates(
    s: ControlState,
    outcome: Outcome,
    picked: Seq<char>,
    now: u64,
)
    requires
        in_step(s),
        s.phase is Extract,
        reading(GrammarView::ExactString { allowed: s.allowed }, outcome) == Reading::Value(
            Some(picked),
        ),
    ensures
        s.allowed.contains(picked),
        control_step(s, outcome, now).1 == ExtractActionView::Request,
        control_step(s, outcome, now).0.phase is Validate,
        control_step(s, outcome, now).0.candidate == Some(picked),
        control_step(s, outcome, now).0.allowed == without(s.allowed, picked),
        control_step(s, outcome, now).0.allowed.len() == s.allowed.len() - 1,
        s.allowed.no_duplicates() ==> control_step(s, outcome, now).0.allowed.no_duplicates()
            && !control_step(s, outcome, now).0.allowed.contains(picked),
        forall|other: Seq<char>|
            s.allowed.no_duplicates() && other != picked ==> (control_step(
                s,
                outcome,
                now,
            ).0.allowed.contains(other) <==> s.allowed.contains(other)),
        control_step(s, outcome, now).0.results == s.results,
        control_step(s, outcome, now).0.iteration == s.iteration,
        control_step(s, outcome, now).0.flow.rounds.len() == s.flow.rounds.len(),
        in_step(control_step(s, outcome, now).0),
{
    lemma_step_ended(s.flow, s.request, outcome);
    let ended = step_ended(s.flow, s.request, outcome);
    let after = ControlState { flow: ended.0, request: ended.1, ..s };
    lemma_asking(
        ControlState { allowed: without(s.allowed, picked), candidate: Some(picked), ..after },
        ExtractPhase::Validate,
    );
    s.allowed.index_of_first_ensures(picked);
    if s.allowed.no_duplicates() {
        crate::primitives::exact_string::lemma_without(s.allowed, picked);
    }
}

/// A pick that is no candidate is refused. A response to a pick whose
/// text is not among the candidates is no value of the step's grammar:
/// the run fails with the text, and the candidates stay as they were.
pub proof fn law_pick_outside_candidates_is_refused(
    s: ControlState,
    response: CompletionResponse,
    now: u64,
)
    requires
        in_step(s),
        s.phase is Extract,
        !s.allowed.contains(response.content@),
        !(response.finish_reason matches crate::requests::stop_sequence::CompletionFinishReason::MatchingStoppingSequence(
            crate::requests::stop_sequence::StoppingSequence::NullResult(_),
        )),
    ensures
        control_step(s, Ok(response), now).1 == ExtractActionView::Failed(
            ExtractErrorView::Parse(
                crate::primitives::grammar::ParseErrorView::NotAllowed(response.content@),
            ),
        ),
        control_step(s, Ok(response), now).0.allowed == s.allowed,
        control_step(s, Ok(response), now).0.results == s.results,
        all_rounds_closed(control_step(s, Ok(response), now).0.flow),
{
    law_failed_step_closes_round(s, Ok(response), now);
}

/// No step without a round. In a cascade without rounds the workflow
/// cannot ask for a step: the run fails with the cascade's error for "no
/// rounds", no step is added, the request is not touched, and candidates
/// and results stay as they were.
pub proof fn law_asking_needs_round(s: ControlState, phase: ExtractPhase)
    requires
        s.flow.rounds.len() == 0,
    ensures
        asking(s, phase) == (
            ControlState { phase: ExtractPhase::Finished, ..s },
            ExtractActionView::Failed(
                ExtractErrorView::Structure(crate::cascade::error::CascadeErrorView::NoRounds),
            ),
        ),
{
}

/// A "no" after a rejected pick prunes the selection. Take a selection
/// in which a further candidate is due and a second URL is wanted. The
/// model picks a candidate, which is accepted; it picks a second, which
/// is rejected; and it then denies that any candidate left can qualify.
/// The run asks for exactly these five steps and ends: the first pick is
/// the one URL added to the results, the second pick is no result, the
/// candidates are those without the two picks, so that no other
/// candidate was picked or judged, and the one round that was added for
/// the second pick is closed like every other round.
pub proof fn law_negative_check_prunes(
    s: ControlState,
    first_pick: Outcome,
    acceptance: Outcome,
    second_pick: Outcome,
    rejection: Outcome,
    denial: Outcome,
    first: Seq<char>,
    second: Seq<char>,
    now: u64,
)
    requires
        in_step(s),
        s.phase is Extract,
        s.iteration < s.total,
        s.results.len() + 1 < s.max_urls,
        reading(GrammarView::ExactString { allowed: s.allowed }, first_pick) == Reading::Value(
            Some(first),
        ),
        reading(GrammarView::Boolean, acceptance) == Reading::Value(Some("true"@)),
        reading(
            GrammarView::ExactString { allowed: without(s.allowed, first) },
            second_pick,
        ) == Reading::Value(Some(second)),
        reading(GrammarView::Boolean, rejection) == Reading::Value(Some("false"@)),
        reading(GrammarView::Boolean, denial) == Reading::Value(Some("false"@)),
    ensures
        ({
            let picked = control_step(s, first_pick, now);
            let accepted = control_step(picked.0, acceptance, now);
            let picked_again = control_step(accepted.0, second_pick, now);
            let rejected = control_step(picked_again.0, rejection, now);
            let ended = control_step(rejected.0, denial, now);
            &&& picked.1 == ExtractActionView::Request && picked.0.phase is Validate
            &&& accepted.1 == ExtractActionView::Request && accepted.0.phase is Extract
            &&& picked_again.1 == ExtractActionView::Request && picked_again.0.phase is Validate
            &&& rejected.1 == ExtractActionView::Request && rejected.0.phase is CheckRemaining
            &&& ended.1 is Finished
            &&& ended.1->results == Some(s.results.push(first))
            &&& ended.0.results == s.results.push(first)
            &&& ended.0.allowed == without(without(s.allowed, first), second)
            &&& ended.1->workflow.rounds.len() == s.flow.rounds.len() + 1
            &&& all_rounds_closed(ended.1->workflow)
            &&& ended.0.phase is Finished
        }),
{
    lemma_true_is_not_false();
    law_pick_leaves_candidates(s, first_pick, first, now);
    let picked = control_step(s, first_pick, now);
    lemma_step_ended(picked.0.flow, picked.0.request, acceptance);
    let e2 = step_ended(picked.0.flow, picked.0.request, acceptance);
    lemma_on_verdict(ControlState { flow: e2.0, request: e2.1, ..picked.0 }, "true"@, now);
    let accepted = control_step(picked.0, acceptance, now);
    law_move_is_sound(picked.0, acceptance, now);
    law_pick_leaves_candidates(accepted.0, second_pick, second, now);
    let picked_again = control_step(accepted.0, second_pick, now);
    lemma_step_ended(picked_again.0.flow, picked_again.0.request, rejection);
    let e4 = step_ended(picked_again.0.flow, picked_again.0.request, rejection);
    lemma_on_verdict(ControlState { flow: e4.0, request: e4.1, ..picked_again.0 }, "false"@, now);
    let rejected = control_step(picked_again.0, rejection, now);
    law_move_is_sound(picked_again.0, rejection, now);
    lemma_step_ended(rejected.0.flow, rejected.0.request, denial);
    let e5 = step_ended(rejected.0.flow, rejected.0.request, denial);
    lemma_on_remaining(ControlState { flow: e5.0, request: e5.1, ..rejected.0 }, "false"@, now);
    law_move_is_sound(rejected.0, denial, now);
}

/// A run starts in step. A workflow with a URL in its input, with
/// instructions and with material asks for the step in which the model
/// describes the criteria, every URL of the input once among the
/// candidates, after a closed round of examples; any other workflow does
/// not start, and says which of the three is missing.
pub proof fn law_start_is_sound(s: ControlState, now: u64)
    ensures
        match control_start(s, now).1 {
            ExtractActionView::Request => {
                &&& sound(control_start(s, now), now, now)
                &&& control_start(s, now).0.phase is CriteriaDescription
                &&& control_start(s, now).0.flow.rounds.len() == 2
                &&& control_start(s, now).0.flow.rounds[0].task == GUIDANCE_TASK@
                &&& control_start(s, now).0.allowed == super::urls::unique(
                    urls_in(s.instructions) + urls_in(s.material),
                )
                &&& control_start(s, now).0.allowed.len() > 0
                &&& control_start(s, now).0.results == s.results
                &&& control_start(s, now).0.max_urls == s.max_urls
            },
            ExtractActionView::Failed(e) => {
                &&& (e is NoUrlsFound <==> (urls_in(s.instructions) + urls_in(s.material)).len()
                    == 0)
                &&& e is NoUrlsFound || e is MissingInstructions || e is MissingSupportingMaterial
            },
            ExtractActionView::Finished { .. } => false,
        },
{
    let urls = urls_in(s.instructions) + urls_in(s.material);
    if urls.len() > 0 && s.instructions is Some && s.material is Some {
        lemma_with_added_grows(Seq::empty(), urls);
        let cleared = ControlState {
            allowed: super::urls::unique(urls),
            ..super::extract::cleared(s)
        };
        let open = ControlState {
            flow: crate::cascade::flow::FlowView {
                start_time: now,
                state: FlowState::Open,
                ..cleared.flow
            },
            ..cleared
        };
        lemma_opening(open, GUIDANCE_TASK@, true);
        let begun = opening(open, GUIDANCE_TASK@, true);
        lemma_step_guided(begun.flow, begun.request, guidance_config(), GUIDANCE@);
        let guided = super::session::step_run(
            begun.flow,
            begun.request,
            crate::cascade::step::StepKind::Guidance,
            guidance_config(),
            Some(GUIDANCE@),
        );
        let shown = ControlState { flow: guided.0, request: guided.1, ..begun };
        lemma_closing(shown);
        let task = super::extract::description_task(s.instructions->0);
        lemma_opening(closing(shown).0, task, true);
        lemma_asking(opening(closing(shown).0, task, true), ExtractPhase::CriteriaDescription);
        let last = control_start(s, now).0.flow.rounds;
        assert(last[0].task == GUIDANCE_TASK@) by {
            assert(begun.flow.rounds.last().task == GUIDANCE_TASK@);
            assert(shown.flow.rounds[0].task == GUIDANCE_TASK@);
            assert(closing(shown).0.flow.rounds[0].task == GUIDANCE_TASK@);
            assert(opening(closing(shown).0, task, true).flow.rounds[0]
                == closing(shown).0.flow.rounds[0]);
        }
    }
}

/// Adding candidates never loses one, and adding at least one leaves a
/// list that is not empty.
pub proof fn lemma_with_added_grows(allowed: Seq<Seq<char>>, words: Seq<Seq<char>>)
    ensures
        with_added(allowed, words).len() >= allowed.len(),
        words.len() > 0 ==> with_added(allowed, words).len() > 0,
    decreases words.len(),
{
    if words.len() > 0 {
        lemma_with_added_grows(allowed, words.drop_last());
        let before = with_added(allowed, words.drop_last());
        if before.contains(words.last()) {
            assert(before.len() > 0);
        }
    }
}

/// The sentinel ends the selection. When the model answers a pick with
/// the marker for "nothing qualifies", the run ends with the URLs
/// accepted so far; no round is added for another pick, and every round
/// of the cascade is closed.
pub proof fn law_sentinel_ends_selection(s: ControlState, outcome: Outcome, now: u64)
    requires
        in_step(s),
        s.phase is Extract,
        reading(GrammarView::ExactString { allowed: s.allowed }, outcome) == Reading::Value(None),
    ensures
        control_step(s, outcome, now).1 is Finished,
        control_step(s, outcome, now).1->results == shown(s.results),
        control_step(s, outcome, now).1->workflow.rounds.len() == s.flow.rounds.len(),
        all_rounds_closed(control_step(s, outcome, now).1->workflow),
        control_step(s, outcome, now).0.allowed == s.allowed,
{
    lemma_step_ended(s.flow, s.request, outcome);
    let ended = step_ended(s.flow, s.request, outcome);
    lemma_closing_finish(ControlState { flow: ended.0, request: ended.1, ..s }, now);
}

/// A first pick that is the sentinel gives no URL after a single
/// selection round. A run that starts without results and with a limit
/// above zero, in which the model states its criteria and then answers
/// the first pick with the marker for "nothing qualifies", ends with no
/// URLs. Its cascade has four rounds, all closed: the three in which the
/// criteria are set up and the one round of the selection.
pub proof fn law_first_pick_sentinel(
    s: ControlState,
    description: Outcome,
    statement: Outcome,
    sentinel: Outcome,
    described: Seq<char>,
    stated: Seq<char>,
    now: u64,
)
    requires
        s.results.len() == 0,
        s.max_urls > 0,
        control_start(s, now).1 == ExtractActionView::Request,
        reading(GrammarView::Text { max_tokens: 200 }, description) == Reading::Value(
            Some(described),
        ),
        reading(GrammarView::Text { max_tokens: 200 }, statement) == Reading::Value(Some(stated)),
        reading(
            GrammarView::ExactString { allowed: control_start(s, now).0.allowed },
            sentinel,
        ) == Reading::Value(None),
    ensures
        ({
            let started = control_start(s, now).0;
            let with_description = control_step(started, description, now);
            let with_statement = control_step(with_description.0, statement, now);
            let ended = control_step(with_statement.0, sentinel, now);
            &&& with_description.1 == ExtractActionView::Request
            &&& with_statement.1 == ExtractActionView::Request
            &&& with_statement.0.phase is Extract
            &&& ended.1 is Finished
            &&& ended.1->results == None::<Seq<Seq<char>>>
            &&& ended.1->criteria == stated
            &&& ended.1->workflow.rounds.len() == 4
            &&& all_rounds_closed(ended.1->workflow)
            &&& ended.0.phase is Finished
        }),
{
    law_start_is_sound(s, now);
    let started = control_start(s, now).0;
    lemma_step_ended(started.flow, started.request, description);
    let first = step_ended(started.flow, started.request, description);
    lemma_on_description(
        ControlState { flow: first.0, request: first.1, ..started },
        described,
    );
    let with_description = control_step(started, description, now);
    lemma_step_ended(with_description.0.flow, with_description.0.request, statement);
    let second = step_ended(with_description.0.flow, with_description.0.request, statement);
    lemma_on_statement(
        ControlState { flow: second.0, request: second.1, ..with_description.0 },
        stated,
        now,
    );
    let with_statement = control_step(with_description.0, statement, now);
    law_sentinel_ends_selection(with_statement.0, sentinel, now);
    law_move_is_sound(with_statement.0, sentinel, now);
}

/// A selection whose first pick is the sentinel opens one round and
/// asks once. Take an open cascade between rounds, at least one
/// candidate, and fewer results than the limit. Beginning the selection
/// adds one round and asks for the first pick; when the model answers
/// with the marker for "nothing qualifies", the run ends without
/// another request: no validation and no question about the candidates
/// left was asked for, results and candidates are as they were, the one
/// round that was added is closed like every other, and the cascade is
/// closed after the time since it was opened.
pub proof fn law_selection_sentinel(s: ControlState, sentinel: Outcome, now: u64)
    requires
        between_rounds(s.flow),
        s.allowed.len() >= 1,
        s.results.len() < s.max_urls,
        reading(GrammarView::ExactString { allowed: s.allowed }, sentinel) == Reading::Value(None),
    ensures
        ({
            let begun = selection_begun(s, now);
            let ended = control_step(begun.0, sentinel, now);
            &&& begun.1 == ExtractActionView::Request
            &&& begun.0.phase is Extract
            &&& begun.0.iteration == 1
            &&& begun.0.flow.rounds.len() == s.flow.rounds.len() + 1
            &&& same_selection(
                ControlState { total: s.allowed.len(), ..s },
                begun.0,
            )
            &&& ended.1 is Finished
            &&& ended.1->results == shown(s.results)
            &&& ended.0.results == s.results
            &&& ended.0.allowed == s.allowed
            &&& ended.1->workflow.rounds.len() == s.flow.rounds.len() + 1
            &&& all_rounds_closed(ended.1->workflow)
            &&& ended.1->workflow.state == FlowState::Closed
            &&& ended.1->duration == elapsed(s.flow.start_time, now)
        }),
{
    let task = super::extract::selection_task(or_empty(s.material), or_empty(s.criteria));
    lemma_opening(s, task, false);
    let counted = ControlState { total: s.allowed.len(), ..opening(s, task, false) };
    lemma_first_pick(counted, now);
    let begun = selection_begun(s, now);
    law_sentinel_ends_selection(begun.0, sentinel, now);
    law_move_is_sound(begun.0, sentinel, now);
}

/// A "no" on the candidates that are left ends the selection. After a
/// rejected pick, when the model denies that any candidate left can
/// qualify, the run ends with the URLs accepted so far, however many
/// candidates are left and however few URLs were accepted.
pub proof fn law_negative_check_ends_selection(s: ControlState, outcome: Outcome, now: u64)
    requires
        in_step(s),
        s.phase is CheckRemaining,
        reading(GrammarView::Boolean, outcome) == Reading::Value(Some("false"@)),
    ensures
        control_step(s, outcome, now).1 is Finished,
        control_step(s, outcome, now).1->results == shown(s.results),
        control_step(s, outcome, now).1->workflow.rounds.len() == s.flow.rounds.len(),
        all_rounds_closed(control_step(s, outcome, now).1->workflow),
{
    lemma_step_ended(s.flow, s.request, outcome);
    let ended = step_ended(s.flow, s.request, outcome);
    lemma_on_remaining(ControlState { flow: ended.0, request: ended.1, ..s }, "false"@, now);
}

/// A rejected pick alone does not end the selection: the model is asked
/// about the candidates that are left, in the same round, and the
/// rejected pick is not a result.
pub proof fn law_rejection_asks_for_remaining(s: ControlState, outcome: Outcome, now: u64)
    requires
        in_step(s),
        s.phase is Validate,
        reading(GrammarView::Boolean, outcome) == Reading::Value(Some("false"@)),
    ensures
        control_step(s, outcome, now).1 == ExtractActionView::Request,
        control_step(s, outcome, now).0.phase is CheckRemaining,
        control_step(s, outcome, now).0.results == s.results,
        control_step(s, outcome, now).0.flow.rounds.len() == s.flow.rounds.len(),
{
    lemma_step_ended(s.flow, s.request, outcome);
    let ended = step_ended(s.flow, s.request, outcome);
    lemma_on_verdict(ControlState { flow: ended.0, request: ended.1, ..s }, "false"@, now);
}

/// The model picks only while URLs are wanted. A move of a workflow that
/// is in step adds at most one result, and only an accepted pick adds
/// one; and when the move leads to a new pick, fewer URLs are accepted
/// than the limit allows.
pub proof fn law_pick_within_limits(s: ControlState, outcome: Outcome, now: u64)
    requires
        running(s.phase),
        in_step(s),
    ensures
        ({
            let next = control_step(s, outcome, now);
            &&& next.0.max_urls == s.max_urls
            &&& next.0.results == s.results || (s.phase is Validate && next.0.results
                == s.results.push(or_empty(s.candidate)))
            &&& next.1 is Request && next.0.phase is Extract ==> next.0.results.len()
                < next.0.max_urls
        }),
{
    lemma_step_ended(s.flow, s.request, outcome);
    lemma_true_is_not_false();
    let ended = step_ended(s.flow, s.request, outcome);
    let after = ControlState { flow: ended.0, request: ended.1, ..s };
    match reading(awaited_config(s).grammar, outcome) {
        Reading::Value(Some(text)) => {
            match s.phase {
                ExtractPhase::CriteriaDescription => lemma_on_description(after, text),
                ExtractPhase::CriteriaStatement => lemma_on_statement(after, text, now),
                ExtractPhase::Extract => lemma_asking(
                    ControlState {
                        allowed: crate::primitives::exact_string::without(s.allowed, text),
                        candidate: Some(text),
                        ..after
                    },
                    ExtractPhase::Validate,
                ),
                ExtractPhase::Validate => {
                    lemma_on_verdict(after, text, now);
                    if text == "true"@ {
                        let accepted = ControlState {
                            results: s.results.push(or_empty(s.candidate)),
                            ..after
                        };
                        lemma_closing(accepted);
                        lemma_later_pick(closing(accepted).0, now);
                    }
                },
                _ => {
                    lemma_on_remaining(after, text, now);
                    lemma_suffix_set(after.flow, CHECKED@);
                    let marked = ControlState {
                        flow: super::session::suffix_set(after.flow, CHECKED@).0,
                        ..after
                    };
                    lemma_closing(marked);
                    lemma_later_pick(closing(marked).0, now);
                },
            }
        },
        Reading::Value(None) => {
            if s.phase is Extract {
                lemma_closing_finish(after, now);
            }
        },
        _ => {},
    }
}

} // verus!

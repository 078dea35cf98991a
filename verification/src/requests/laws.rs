//! What holds of the request engine over whole runs.

use vstd::prelude::*;
use super::config::{available_tokens, RequestConfig, RequestTokenLimitError};
use super::error::CompletionError;
use super::request::{
    exceeded_message,
    step,
    ActionView,
    BackendEvent,
    EngineState,
    RequestPhase,
};
use super::response::CompletionResponse;

verus! {

/// The state after the engine has taken `events` in order.
pub open spec fn run(s: EngineState, events: Seq<BackendEvent>) -> EngineState
    decreases events.len(),
{
    if events.len() == 0 {
        s
    } else {
        step(run(s, events.drop_last()), events.last()).0
    }
}

/// The actions that the engine called for, one for each of `events`.
pub open spec fn trace(s: EngineState, events: Seq<BackendEvent>) -> Seq<Option<ActionView>>
    decreases events.len(),
{
    if events.len() == 0 {
        Seq::empty()
    } else {
        trace(s, events.drop_last()).push(step(run(s, events.drop_last()), events.last()).1)
    }
}

/// A measured prompt followed by one failed completion for each of `failures`.
pub open spec fn failing_backend(tokens: u64, failures: Seq<CompletionError>) -> Seq<
    BackendEvent,
> {
    seq![BackendEvent::PromptTokens(Ok(tokens))] + failures.map_values(
        |e: CompletionError| BackendEvent::Completion(Err(e)),
    )
}

/// The state in which the engine waits for the result of an attempt after
/// `failures` have been logged.
pub open spec fn attempting(s: EngineState, tokens: u64, failures: Seq<CompletionError>) -> EngineState {
    EngineState {
        phase: RequestPhase::Completing,
        retry_count: failures.len() as u8,
        total_prompt_tokens: tokens,
        config: RequestConfig {
            actual_request_tokens: Some(super::config::budget_for(s.config, tokens) as u64),
            ..s.config
        },
        errors: failures,
        required: s.required,
    }
}

/// While attempts are left, each failure that is not fatal is logged and the completion is asked for again.
proof fn lemma_attempts_go_on(s: EngineState, tokens: u64, failures: Seq<CompletionError>)
    requires
        s.phase is CountingPromptTokens,
        s.retry_count == 0,
        s.errors.len() == 0,
        tokens < s.config.model_ctx_size,
        failures.len() < s.config.retry_after_fail_n_times,
        forall|i: int| 0 <= i < failures.len() ==> !(#[trigger] failures[i]).is_fatal(),
    ensures
        run(s, failing_backend(tokens, failures)) == attempting(s, tokens, failures),
        trace(s, failing_backend(tokens, failures)) == Seq::new(
            failures.len() + 1,
            |i: int| Some(ActionView::Complete),
        ),
    decreases failures.len(),
{
    let events = failing_backend(tokens, failures);
    if failures.len() == 0 {
        assert(events.drop_last() =~= Seq::empty());
        assert(run(s, events.drop_last()) == s);
        assert(trace(s, events.drop_last()) =~= Seq::empty());
        assert(events.last() == BackendEvent::PromptTokens(Ok(tokens)));
        assert(s.errors =~= failures);
        assert(trace(s, events) =~= Seq::new(1, |i: int| Some(ActionView::Complete)));
    } else {
        let before = failures.drop_last();
        lemma_attempts_go_on(s, tokens, before);
        assert(events.drop_last() =~= failing_backend(tokens, before));
        assert(events.last() == BackendEvent::Completion(Err(failures.last())));
        assert(before.push(failures.last()) =~= failures);
        assert(trace(s, events) =~= Seq::new(
            failures.len() + 1,
            |i: int| Some(ActionView::Complete),
        ));
    }
}

/// The retry limit is exact. Once the prompt is measured, a backend that
/// fails every completion with an error that is not fatal is asked for a
/// completion exactly as often as the configuration allows. The failure
/// that uses up the last attempt ends the request with the error for
/// exhausted attempts, which carries every failure in order. With a
/// limit of zero the backend is not asked at all.
pub proof fn law_retry_limit_is_exact(s: EngineState, tokens: u64, failures: Seq<CompletionError>)
    requires
        s.phase is CountingPromptTokens,
        s.retry_count == 0,
        s.errors.len() == 0,
        tokens < s.config.model_ctx_size,
        failures.len() == s.config.retry_after_fail_n_times,
        forall|i: int| 0 <= i < failures.len() ==> !(#[trigger] failures[i]).is_fatal(),
    ensures
        trace(s, failing_backend(tokens, failures)) == Seq::new(
            failures.len(),
            |i: int| Some(ActionView::Complete),
        ).push(
            Some(
                ActionView::Exceeded {
                    message: exceeded_message(s.config.retry_after_fail_n_times),
                    errors: failures,
                },
            ),
        ),
        run(s, failing_backend(tokens, failures)).phase is Idle,
        run(s, failing_backend(tokens, failures)).errors.len() == 0,
{
    let events = failing_backend(tokens, failures);
    let limit = s.config.retry_after_fail_n_times;
    if failures.len() == 0 {
        assert(events.drop_last() =~= Seq::empty());
        assert(run(s, events.drop_last()) == s);
        assert(trace(s, events.drop_last()) =~= Seq::empty());
        assert(events.last() == BackendEvent::PromptTokens(Ok(tokens)));
        assert(s.errors =~= failures);
        assert(trace(s, events) =~= Seq::new(0, |i: int| Some(ActionView::Complete)).push(
            Some(ActionView::Exceeded { message: exceeded_message(limit), errors: failures }),
        ));
    } else {
        let before = failures.drop_last();
        lemma_attempts_go_on(s, tokens, before);
        assert(events.drop_last() =~= failing_backend(tokens, before));
        assert(events.last() == BackendEvent::Completion(Err(failures.last())));
        assert(before.push(failures.last()) =~= failures);
        assert(trace(s, events) =~= Seq::new(
            failures.len(),
            |i: int| Some(ActionView::Complete),
        ).push(
            Some(ActionView::Exceeded { message: exceeded_message(limit), errors: failures }),
        ));
    }
}

/// A fatal error ends the request at once. Whatever the retry limit and
/// however many attempts are left, a completion that fails with a
/// builder, client or unsupported-stop-reason error ends the request with
/// that error, and nothing is added to the log.
pub proof fn law_fatal_error_ends_request(s: EngineState, e: CompletionError)
    requires
        s.phase is Completing,
        e.is_fatal(),
    ensures
        step(s, BackendEvent::Completion(Err(e))).1 == Some(ActionView::Fail(e)),
        step(s, BackendEvent::Completion(Err(e))).0.phase is Idle,
        step(s, BackendEvent::Completion(Err(e))).0.errors == s.errors,
{
}

/// The output budget stays within the inference ceiling. Whatever the
/// backend answers, and in whatever order, a budget that respects the
/// ceiling still does so afterwards, and the ceiling itself never moves.
pub proof fn law_budget_within_ceiling(s: EngineState, events: Seq<BackendEvent>)
    requires
        s.config.wf(),
    ensures
        run(s, events).config.wf(),
        run(s, events).config.inference_ctx_size == s.config.inference_ctx_size,
        run(s, events).config.model_ctx_size == s.config.model_ctx_size,
    decreases events.len(),
{
    if events.len() > 0 {
        law_budget_within_ceiling(s, events.drop_last());
    }
}

/// The output budget never shrinks while a completion is retried.
pub proof fn law_budget_grows(s: EngineState, event: BackendEvent)
    requires
        s.phase is Completing,
        s.config.actual_request_tokens is Some,
    ensures
        step(s, event).0.config.actual_request_tokens is Some,
        step(s, event).0.config.actual_request_tokens->0 >= s.config.actual_request_tokens->0,
{
}

/// Growth at the ceiling fails. When the budget already is all that fits
/// after the prompt, a response that was cut off, under a configuration
/// that grows the budget on failure, ends the request with a token-limit
/// error: there is no further attempt.
pub proof fn law_growth_at_ceiling_fails(s: EngineState, response: CompletionResponse)
    requires
        s.phase is Completing,
        s.config.increase_limit_on_fail,
        !s.required,
        response.finish_reason is StopLimit,
        s.total_prompt_tokens < s.config.model_ctx_size,
        s.config.actual_request_tokens == Some(
            available_tokens(s.config, s.total_prompt_tokens) as u64,
        ),
    ensures
        step(s, BackendEvent::Completion(Ok(response))).1 == Some(
            ActionView::Fail(
                CompletionError::RequestTokenLimitError(
                    RequestTokenLimitError::TokenLimitIncreaseError {
                        initial_state: s.config.actual_request_tokens->0,
                        limit: s.config.actual_request_tokens->0,
                    },
                ),
            ),
        ),
        step(s, BackendEvent::Completion(Ok(response))).0.phase is Idle,
        step(s, BackendEvent::Completion(Ok(response))).0.config == s.config,
{
}

/// Whether every event is the outcome of a completion.
pub open spec fn all_completions(events: Seq<BackendEvent>) -> bool {
    forall|i: int| 0 <= i < events.len() ==> (#[trigger] events[i]) is Completion
}

/// Attempts that a request in state `s` still has.
pub open spec fn attempts_left(s: EngineState) -> int {
    if s.phase is Completing {
        s.config.retry_after_fail_n_times - s.retry_count
    } else {
        0
    }
}

/// A request ends. While a completion is under way, each outcome either
/// ends the request or uses up an attempt, so after as many outcomes as
/// attempts were left the request is over, whatever the backend answered.
pub proof fn law_request_ends(s: EngineState, events: Seq<BackendEvent>)
    requires
        s.phase is Completing,
        s.retry_count < s.config.retry_after_fail_n_times,
        all_completions(events),
    ensures
        run(s, events).phase is Idle || (run(s, events).phase is Completing && attempts_left(
            run(s, events),
        ) <= attempts_left(s) - events.len() && attempts_left(run(s, events)) > 0),
        events.len() >= attempts_left(s) ==> run(s, events).phase is Idle,
    decreases events.len(),
{
    if events.len() > 0 {
        law_request_ends(s, events.drop_last());
        let before = run(s, events.drop_last());
        assert(events.last() is Completion);
        assert(before.config.retry_after_fail_n_times == s.config.retry_after_fail_n_times) by {
            lemma_limit_is_kept(s, events.drop_last());
        }
    }
}

/// No event changes the retry limit.
proof fn lemma_limit_is_kept(s: EngineState, events: Seq<BackendEvent>)
    ensures
        run(s, events).config.retry_after_fail_n_times == s.config.retry_after_fail_n_times,
    decreases events.len(),
{
    if events.len() > 0 {
        lemma_limit_is_kept(s, events.drop_last());
    }
}

} // verus!

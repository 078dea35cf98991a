//! The request engine: one completion, retried within bounds.
//!
//! The engine does not talk to a backend. It says what has to be asked of
//! the backend next, takes the answer as an event, and decides. A driver
//! performs each action and hands the outcome back:
//!
//! 1. `start` clears the error log and asks for the logit bias to be built;
//! 2. the prompt is measured and the output budget set from it;
//! 3. the completion is attempted until a response is accepted, a fatal
//!    error comes back, the budget cannot grow, or the attempts run out.

use vstd::prelude::*;
use vstd::string::*;
use super::components::{LogitBias, ToolChoice, ToolDefinition};
use super::config::{
    budget_for,
    increase_outcome,
    increased,
    RequestConfig,
    RequestTokenLimitError,
};
use super::error::CompletionError;
use super::prompt::{LLMPrompt, PromptRole};
use super::response::CompletionResponse;
use super::stop_sequence::{opt_view, CompletionFinishReason, StopSequences};
use crate::text::{decimal, decimal_text};

verus! {

/// What the engine is waiting for.
#[derive(Debug, Clone, Copy, PartialEq, Eq, Structural)]
pub enum RequestPhase {
    /// No request is under way.
    Idle,
    /// The backend is building the logit bias.
    BuildingLogitBias,
    /// The prompt is being measured.
    CountingPromptTokens,
    /// A completion is under way.
    Completing,
}

/// What a backend answered.
#[derive(Debug, PartialEq, Eq)]
pub enum BackendEvent {
    /// The logit bias was built, or could not be.
    LogitBias(Result<(), String>),
    /// The prompt has this many tokens, or could not be measured.
    PromptTokens(Result<u64, String>),
    /// A completion came back, or failed.
    Completion(Result<CompletionResponse, CompletionError>),
}

/// What the driver has to do next.
#[derive(Debug, PartialEq, Eq)]
pub enum RequestAction {
    /// Have the backend build the logit bias for the request.
    BuildLogitBias,
    /// Measure the request's prompt.
    CountPromptTokens,
    /// Send the request for completion.
    Complete,
    /// The request is over, with this result.
    Finish(Result<CompletionResponse, CompletionError>),
}

/// An action as plain values.
pub enum ActionView {
    BuildLogitBias,
    CountPromptTokens,
    Complete,
    /// The request ends with this response.
    Accept(CompletionResponse),
    /// The request ends with this error.
    Fail(CompletionError),
    /// The request ends because the attempts ran out.
    Exceeded { message: Seq<char>, errors: Seq<CompletionError> },
}

impl View for RequestAction {
    type V = ActionView;

    open spec fn view(&self) -> ActionView {
        match self {
            RequestAction::BuildLogitBias => ActionView::BuildLogitBias,
            RequestAction::CountPromptTokens => ActionView::CountPromptTokens,
            RequestAction::Complete => ActionView::Complete,
            RequestAction::Finish(Ok(response)) => ActionView::Accept(*response),
            RequestAction::Finish(Err(CompletionError::ExceededRetryCount { message, errors })) =>
                ActionView::Exceeded { message: message@, errors: errors@ },
            RequestAction::Finish(Err(e)) => ActionView::Fail(*e),
        }
    }
}

/// The view of an optional action.
pub open spec fn action_view(action: Option<RequestAction>) -> Option<ActionView> {
    match action {
        Some(a) => Some(a@),
        None => None,
    }
}

/// The part of a request that the engine reads and writes.
pub struct EngineState {
    pub phase: RequestPhase,
    /// Attempts made so far.
    pub retry_count: u8,
    /// Size of the prompt, once measured.
    pub total_prompt_tokens: u64,
    pub config: RequestConfig,
    /// What the attempts so far failed with, in order.
    pub errors: Seq<CompletionError>,
    /// Whether a response has to end on a listed marker.
    pub required: bool,
}

/// A request as plain values.
pub struct RequestView {
    /// The part that the engine reads and writes.
    pub engine: EngineState,
    pub start_time: u64,
    /// The marker that ends a finished answer.
    pub done: Option<Seq<char>>,
    /// The marker that stands for "no answer".
    pub no_result: Option<Seq<char>>,
    pub grammar: Option<Seq<char>>,
    pub logit_bias: Option<Seq<(u32, i8)>>,
    /// The conversation so far: who said what.
    pub messages: Seq<(PromptRole, Seq<char>)>,
    /// The text that the next response continues.
    pub generation_prefix: Option<Seq<char>>,
    pub tools: Seq<ToolDefinition>,
    pub tool_choice: ToolChoice,
}

/// A request with its conversation forgotten: no messages, no text to
/// continue, no markers and none required, no grammar and no bias.
/// Configuration, tools and the engine's progress stay.
pub open spec fn forgotten(request: RequestView) -> RequestView {
    RequestView {
        engine: EngineState { required: false, ..request.engine },
        messages: Seq::empty(),
        generation_prefix: None,
        done: None,
        no_result: None,
        grammar: None,
        logit_bias: None,
        ..request
    }
}

/// A request that has taken the markers of a step. Where at least one is
/// given, they replace the markers set before and a response has to end
/// on one of them; where none is given, nothing changes.
pub open spec fn with_markers(
    request: RequestView,
    done: Option<Seq<char>>,
    no_result: Option<Seq<char>>,
) -> RequestView {
    if done is None && no_result is None {
        request
    } else {
        RequestView {
            engine: EngineState { required: true, ..request.engine },
            done,
            no_result,
            ..request
        }
    }
}

/// One logical conversation with a backend.
#[derive(Debug, PartialEq, Eq)]
pub struct CompletionRequest {
    /// When the request under way was started, in milliseconds of the driver's clock.
    pub start_time: u64,
    pub stop_sequences: StopSequences,
    /// The grammar that constrains the output, if any.
    pub grammar_string: Option<String>,
    pub logit_bias: Option<LogitBias>,
    pub prompt: LLMPrompt,
    pub config: RequestConfig,
    /// What the attempts of the request under way failed with, in order.
    pub llm_interface_errors: Vec<CompletionError>,
    pub tools: Vec<ToolDefinition>,
    pub tool_choice: ToolChoice,
    pub phase: RequestPhase,
    /// Attempts made in the request under way.
    pub retry_count: u8,
    /// Size of the prompt of the request under way.
    pub total_prompt_tokens: u64,
}

/// The text of the error that ends a request after `attempts` attempts.
pub open spec fn exceeded_message(attempts: u8) -> Seq<char> {
    "Request failed after "@ + decimal_text(attempts as nat) + " attempts."@
}

/// The attempt counter after one more attempt. It stops at its type's limit.
pub open spec fn counted(retry_count: u8) -> u8 {
    if retry_count < u8::MAX {
        (retry_count + 1) as u8
    } else {
        retry_count
    }
}

/// The state with no request under way.
pub open spec fn ended(s: EngineState) -> EngineState {
    EngineState { phase: RequestPhase::Idle, ..s }
}

/// The head of the retry loop: another attempt if any is left, else the
/// error that carries the log.
pub open spec fn next_attempt(s: EngineState) -> (EngineState, Option<ActionView>) {
    if s.retry_count >= s.config.retry_after_fail_n_times {
        (
            EngineState { phase: RequestPhase::Idle, errors: Seq::empty(), ..s },
            Some(
                ActionView::Exceeded { message: exceeded_message(s.retry_count), errors: s.errors },
            ),
        )
    } else {
        (EngineState { phase: RequestPhase::Completing, ..s }, Some(ActionView::Complete))
    }
}

/// An attempt failed with `failure` in a way that a larger budget may cure:
/// the failure is logged, the attempt counted, the budget grown where the
/// configuration says so, and the loop goes on. A budget that cannot grow
/// ends the request.
pub open spec fn retry_with_growth(s: EngineState, failure: CompletionError) -> (
    EngineState,
    Option<ActionView>,
) {
    let logged = EngineState {
        errors: s.errors.push(failure),
        retry_count: counted(s.retry_count),
        ..s
    };
    if s.config.increase_limit_on_fail {
        let grown = EngineState { config: increased(s.config, s.total_prompt_tokens), ..logged };
        match increase_outcome(s.config, s.total_prompt_tokens) {
            Err(e) => (
                ended(grown),
                Some(ActionView::Fail(CompletionError::RequestTokenLimitError(e))),
            ),
            Ok(_) => next_attempt(grown),
        }
    } else {
        next_attempt(logged)
    }
}

/// What a response means for a request in state `s`.
pub open spec fn on_response(s: EngineState, response: CompletionResponse) -> (
    EngineState,
    Option<ActionView>,
) {
    if s.required {
        match response.finish_reason {
            CompletionFinishReason::MatchingStoppingSequence(_) => (
                ended(s),
                Some(ActionView::Accept(response)),
            ),
            CompletionFinishReason::NonMatchingStoppingSequence(Some(word)) => retry_with_growth(
                s,
                CompletionError::NonMatchingStopSequence(word),
            ),
            _ => retry_with_growth(s, CompletionError::NoRequiredStopSequence),
        }
    } else {
        match response.finish_reason {
            CompletionFinishReason::StopLimit => if s.config.increase_limit_on_fail {
                retry_with_growth(s, CompletionError::StopLimitRetry)
            } else {
                (ended(s), Some(ActionView::Accept(response)))
            },
            _ => (ended(s), Some(ActionView::Accept(response))),
        }
    }
}

/// The engine's transition: the state after `event` and the action it calls for.
///
/// An event that does not answer what the engine waits for changes nothing
/// and calls for nothing.
pub open spec fn step(s: EngineState, event: BackendEvent) -> (EngineState, Option<ActionView>) {
    match (s.phase, event) {
        (RequestPhase::BuildingLogitBias, BackendEvent::LogitBias(Ok(_))) => (
            EngineState { phase: RequestPhase::CountingPromptTokens, ..s },
            Some(ActionView::CountPromptTokens),
        ),
        (RequestPhase::BuildingLogitBias, BackendEvent::LogitBias(Err(detail))) => (
            ended(s),
            Some(ActionView::Fail(CompletionError::RequestBuilderError(detail))),
        ),
        (RequestPhase::CountingPromptTokens, BackendEvent::PromptTokens(Err(detail))) => (
            ended(s),
            Some(ActionView::Fail(CompletionError::RequestBuilderError(detail))),
        ),
        (RequestPhase::CountingPromptTokens, BackendEvent::PromptTokens(Ok(tokens))) => if tokens
            >= s.config.model_ctx_size {
            (
                ended(s),
                Some(
                    ActionView::Fail(
                        CompletionError::RequestTokenLimitError(
                            RequestTokenLimitError::PromptTokensExceeds {
                                total_prompt_tokens: tokens,
                                ctx_size: s.config.model_ctx_size,
                            },
                        ),
                    ),
                ),
            )
        } else {
            next_attempt(
                EngineState {
                    total_prompt_tokens: tokens,
                    config: RequestConfig {
                        actual_request_tokens: Some(budget_for(s.config, tokens) as u64),
                        ..s.config
                    },
                    ..s
                },
            )
        },
        (RequestPhase::Completing, BackendEvent::Completion(Err(e))) => if e.is_fatal() {
            (
                EngineState {
                    phase: RequestPhase::Idle,
                    retry_count: counted(s.retry_count),
                    ..s
                },
                Some(ActionView::Fail(e)),
            )
        } else {
            next_attempt(
                EngineState {
                    errors: s.errors.push(e),
                    retry_count: counted(s.retry_count),
                    ..s
                },
            )
        },
        (RequestPhase::Completing, BackendEvent::Completion(Ok(response))) => on_response(
            s,
            response,
        ),
        _ => (s, None),
    }
}

impl View for CompletionRequest {
    type V = RequestView;

    open spec fn view(&self) -> RequestView {
        RequestView {
            engine: self.state(),
            start_time: self.start_time,
            done: opt_view(self.stop_sequences.done),
            no_result: opt_view(self.stop_sequences.no_result),
            grammar: opt_view(self.grammar_string),
            logit_bias: match self.logit_bias {
                Some(bias) => Some(bias.entries@),
                None => None,
            },
            messages: self.prompt@.messages,
            generation_prefix: self.prompt@.generation_prefix,
            tools: self.tools@,
            tool_choice: self.tool_choice,
        }
    }
}

impl Clone for CompletionRequest {
    /// A request that carries the same conversation under the same
    /// configuration, with no request under way, an empty error log and
    /// no tools.
    fn clone(&self) -> (copy: CompletionRequest)
        ensures
            copy.start_time == self.start_time,
            copy.stop_sequences == self.stop_sequences,
            copy.grammar_string == self.grammar_string,
            match self.logit_bias {
                Some(bias) => copy.logit_bias matches Some(b) && b.entries@ == bias.entries@,
                None => copy.logit_bias is None,
            },
            copy.prompt@ == self.prompt@,
            copy.state() == (EngineState {
                phase: RequestPhase::Idle,
                retry_count: 0,
                total_prompt_tokens: 0,
                config: self.config,
                errors: Seq::empty(),
                required: self.stop_sequences.required,
            }),
            copy.tools@.len() == 0,
            copy.tool_choice == ToolChoice::Auto,
    {
        CompletionRequest {
            start_time: self.start_time,
            stop_sequences: self.stop_sequences.duplicate(),
            grammar_string: crate::text::clone_opt(&self.grammar_string),
            logit_bias: match &self.logit_bias {
                Some(bias) => Some(bias.duplicate()),
                None => None,
            },
            prompt: self.prompt.duplicate(),
            config: self.config,
            llm_interface_errors: Vec::new(),
            tools: Vec::new(),
            tool_choice: ToolChoice::Auto,
            phase: RequestPhase::Idle,
            retry_count: 0,
            total_prompt_tokens: 0,
        }
    }
}

impl CompletionRequest {
    /// The part of the request that the engine reads and writes.
    pub open spec fn state(&self) -> EngineState {
        EngineState {
            phase: self.phase,
            retry_count: self.retry_count,
            total_prompt_tokens: self.total_prompt_tokens,
            config: self.config,
            errors: self.llm_interface_errors@,
            required: self.stop_sequences.required,
        }
    }

    /// Whether `other` carries the same conversation: start time, markers,
    /// grammar, bias, prompt and tools.
    pub open spec fn same_conversation(&self, other: &CompletionRequest) -> bool {
        &&& self.start_time == other.start_time
        &&& self.stop_sequences == other.stop_sequences
        &&& self.grammar_string == other.grammar_string
        &&& self.logit_bias == other.logit_bias
        &&& self.prompt == other.prompt
        &&& self.tools == other.tools
        &&& self.tool_choice == other.tool_choice
    }

    /// A request for a backend with the given context sizes: empty prompt,
    /// no markers, grammar, bias or tools, and no request under way.
    pub fn new(model_ctx_size: u64, inference_ctx_size: u64) -> (request: CompletionRequest)
        ensures
            request.state() == (EngineState {
                phase: RequestPhase::Idle,
                retry_count: 0,
                total_prompt_tokens: 0,
                config: RequestConfig {
                    model_ctx_size,
                    inference_ctx_size,
                    requested_response_tokens: None,
                    actual_request_tokens: None,
                    retry_after_fail_n_times: 3,
                    increase_limit_on_fail: true,
                    cache_prompt: true,
                },
                errors: Seq::empty(),
                required: false,
            }),
            request@ == (RequestView {
                engine: request.state(),
                start_time: 0,
                done: None,
                no_result: None,
                grammar: None,
                logit_bias: None,
                messages: Seq::empty(),
                generation_prefix: None,
                tools: Seq::empty(),
                tool_choice: ToolChoice::Auto,
            }),
    {
        let request = CompletionRequest {
            start_time: 0,
            stop_sequences: StopSequences::new(),
            grammar_string: None,
            logit_bias: None,
            prompt: LLMPrompt::new(),
            config: RequestConfig::new(model_ctx_size, inference_ctx_size),
            llm_interface_errors: Vec::new(),
            tools: Vec::new(),
            tool_choice: ToolChoice::Auto,
            phase: RequestPhase::Idle,
            retry_count: 0,
            total_prompt_tokens: 0,
        };
        assert(request@.tools =~= Seq::empty());
        request
    }

    /// Forgets the conversation: the prompt, the markers and that one was
    /// required, the grammar and the bias. The configuration, the tools
    /// and the engine's progress stay.
    pub fn reset_completion_request(&mut self)
        ensures
            final(self)@ == forgotten(old(self)@),
    {
        self.prompt.reset_prompt();
        self.stop_sequences.clear();
        self.grammar_string = None;
        self.logit_bias = None;
    }

    /// Takes the markers of a step. Where at least one is given, the markers
    /// set before are dropped and the response has to end on one of the
    /// new ones; where none is given, nothing changes.
    pub fn set_base_req_stop_sequences(
        &mut self,
        stop_word_done: &Option<String>,
        stop_word_no_result: &Option<String>,
    )
        ensures
            final(self)@ == with_markers(
                old(self)@,
                opt_view(*stop_word_done),
                opt_view(*stop_word_no_result),
            ),
            stop_word_done is None && stop_word_no_result is None ==> *final(self) == *old(self),
    {
        if stop_word_done.is_some() || stop_word_no_result.is_some() {
            self.stop_sequences.clear();
            self.stop_sequences.required = true;
        }
        if let Some(word) = stop_word_done {
            self.stop_sequences.set_stop_word_done(word.as_str());
        }
        if let Some(word) = stop_word_no_result {
            self.stop_sequences.set_stop_word_no_result(word.as_str());
        }
    }

    /// Starts a request at time `now`: the error log is cleared, the
    /// attempts count from zero, and the logit bias is asked for.
    pub fn start(&mut self, now: u64) -> (action: RequestAction)
        ensures
            action == RequestAction::BuildLogitBias,
            final(self).state() == (EngineState {
                phase: RequestPhase::BuildingLogitBias,
                retry_count: 0,
                errors: Seq::empty(),
                ..old(self).state()
            }),
            final(self)@ == (RequestView {
                engine: final(self).state(),
                start_time: now,
                ..old(self)@
            }),
    {
        self.llm_interface_errors.clear();
        self.start_time = now;
        self.retry_count = 0;
        self.phase = RequestPhase::BuildingLogitBias;
        RequestAction::BuildLogitBias
    }

    fn end_with(&mut self, result: Result<CompletionResponse, CompletionError>) -> (action:
        RequestAction)
        ensures
            action == RequestAction::Finish(result),
            final(self).state() == ended(old(self).state()),
            final(self).same_conversation(old(self)),
    {
        self.phase = RequestPhase::Idle;
        RequestAction::Finish(result)
    }

    fn count_attempt(&mut self)
        ensures
            final(self).state() == (EngineState {
                retry_count: counted(old(self).retry_count),
                ..old(self).state()
            }),
            final(self).same_conversation(old(self)),
    {
        if self.retry_count < u8::MAX {
            self.retry_count = self.retry_count + 1;
        }
    }

    fn next_attempt(&mut self) -> (action: RequestAction)
        ensures
            (final(self).state(), Some(action@)) == next_attempt(old(self).state()),
            final(self).same_conversation(old(self)),
    {
        if self.retry_count >= self.config.retry_after_fail_n_times {
            let mut errors: Vec<CompletionError> = Vec::new();
            core::mem::swap(&mut errors, &mut self.llm_interface_errors);
            self.phase = RequestPhase::Idle;
            let attempts = decimal(self.retry_count as u64);
            let message = "Request failed after ".to_owned().concat(attempts.as_str()).concat(
                " attempts.",
            );
            RequestAction::Finish(Err(CompletionError::ExceededRetryCount { message, errors }))
        } else {
            self.phase = RequestPhase::Completing;
            RequestAction::Complete
        }
    }

    fn retry_with_growth(&mut self, failure: CompletionError) -> (action: RequestAction)
        ensures
            (final(self).state(), Some(action@)) == retry_with_growth(old(self).state(), failure),
            final(self).same_conversation(old(self)),
    {
        self.llm_interface_errors.push(failure);
        self.count_attempt();
        if self.config.increase_limit_on_fail {
            match self.config.increase_token_limit(self.total_prompt_tokens) {
                Err(e) => {
                    return self.end_with(Err(CompletionError::RequestTokenLimitError(e)));
                },
                Ok(_) => {},
            }
        }
        self.next_attempt()
    }

    fn on_response(&mut self, response: CompletionResponse) -> (action: RequestAction)
        ensures
            (final(self).state(), Some(action@)) == on_response(old(self).state(), response),
            final(self).same_conversation(old(self)),
    {
        if self.stop_sequences.required {
            match response.finish_reason {
                CompletionFinishReason::MatchingStoppingSequence(_) => self.end_with(Ok(response)),
                CompletionFinishReason::NonMatchingStoppingSequence(Some(word)) =>
                    self.retry_with_growth(CompletionError::NonMatchingStopSequence(word)),
                _ => self.retry_with_growth(CompletionError::NoRequiredStopSequence),
            }
        } else {
            match response.finish_reason {
                CompletionFinishReason::StopLimit => {
                    if self.config.increase_limit_on_fail {
                        self.retry_with_growth(CompletionError::StopLimitRetry)
                    } else {
                        self.end_with(Ok(response))
                    }
                },
                _ => self.end_with(Ok(response)),
            }
        }
    }

    /// Takes what the backend answered and says what to do next.
    ///
    /// The answer is `None`, and nothing changes, when `event` does not
    /// answer the action that the engine last called for.
    pub fn advance(&mut self, event: BackendEvent) -> (action: Option<RequestAction>)
        ensures
            (final(self).state(), action_view(action)) == step(old(self).state(), event),
            final(self)@ == (RequestView { engine: final(self).state(), ..old(self)@ }),
    {
        match self.phase {
            RequestPhase::Idle => None,
            RequestPhase::BuildingLogitBias => match event {
                BackendEvent::LogitBias(Ok(_)) => {
                    self.phase = RequestPhase::CountingPromptTokens;
                    Some(RequestAction::CountPromptTokens)
                },
                BackendEvent::LogitBias(Err(detail)) => Some(
                    self.end_with(Err(CompletionError::RequestBuilderError(detail))),
                ),
                _ => None,
            },
            RequestPhase::CountingPromptTokens => match event {
                BackendEvent::PromptTokens(Err(detail)) => Some(
                    self.end_with(Err(CompletionError::RequestBuilderError(detail))),
                ),
                BackendEvent::PromptTokens(Ok(tokens)) => {
                    match self.config.set_max_tokens_for_request(tokens) {
                        Err(e) => Some(
                            self.end_with(Err(CompletionError::RequestTokenLimitError(e))),
                        ),
                        Ok(_) => {
                            self.total_prompt_tokens = tokens;
                            Some(self.next_attempt())
                        },
                    }
                },
                _ => None,
            },
            RequestPhase::Completing => match event {
                BackendEvent::Completion(Err(e)) => {
                    self.count_attempt();
                    if e.fatal() {
                        Some(self.end_with(Err(e)))
                    } else {
                        self.llm_interface_errors.push(e);
                        Some(self.next_attempt())
                    }
                },
                BackendEvent::Completion(Ok(response)) => Some(self.on_response(response)),
                _ => None,
            },
        }
    }
}

} // verus!

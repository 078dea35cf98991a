//! One unit of cascade work: a grammar-constrained generation and its parse.

use vstd::prelude::*;
use vstd::string::*;
use super::error::{result_view, CascadeError, CascadeErrorView};
use crate::primitives::grammar::{parsed, refused, rendered_text, Grammar, GrammarView};
use crate::requests::error::CompletionError;
use crate::requests::config::RequestConfig;
use crate::requests::request::{CompletionRequest, EngineState, RequestView};
use crate::requests::response::CompletionResponse;
use crate::requests::stop_sequence::{opt_view, CompletionFinishReason, StoppingSequence};
use crate::text::clone_opt;

verus! {

/// How a step is to be run.
#[derive(Debug, Clone, PartialEq, Eq)]
pub struct StepConfig {
    /// Text put before the step's output.
    pub step_prefix: Option<String>,
    /// The marker on which a finished answer ends.
    pub stop_word_done: String,
    /// The marker that stands for "no answer", where the step allows none.
    pub stop_word_no_result: Option<String>,
    /// Whether the backend may reuse the prompt state of the step before.
    pub cache_prompt: bool,
    /// The shape the output has to have.
    pub grammar: Grammar,
}

/// A step's configuration as plain values.
pub struct StepConfigView {
    pub step_prefix: Option<Seq<char>>,
    pub stop_word_done: Seq<char>,
    pub stop_word_no_result: Option<Seq<char>>,
    pub cache_prompt: bool,
    pub grammar: GrammarView,
}

impl View for StepConfig {
    type V = StepConfigView;

    open spec fn view(&self) -> StepConfigView {
        StepConfigView {
            step_prefix: opt_view(self.step_prefix),
            stop_word_done: self.stop_word_done@,
            stop_word_no_result: opt_view(self.stop_word_no_result),
            cache_prompt: self.cache_prompt,
            grammar: self.grammar@,
        }
    }
}

impl Default for StepConfig {
    /// Any text up to the end of the line, no prefix, no marker for "no
    /// answer", and no reuse of prompt state.
    fn default() -> (config: StepConfig)
        ensures
            config@ == (StepConfigView {
                step_prefix: None,
                stop_word_done: "\n"@,
                stop_word_no_result: None,
                cache_prompt: false,
                grammar: GrammarView::Unconstrained,
            }),
    {
        StepConfig {
            step_prefix: None,
            stop_word_done: "\n".to_owned(),
            stop_word_no_result: None,
            cache_prompt: false,
            grammar: Grammar::Unconstrained,
        }
    }
}

impl StepConfig {
    /// A copy of the configuration.
    pub fn duplicate(&self) -> (copy: StepConfig)
        ensures
            copy@ == self@,
    {
        StepConfig {
            step_prefix: clone_opt(&self.step_prefix),
            stop_word_done: self.stop_word_done.clone(),
            stop_word_no_result: clone_opt(&self.stop_word_no_result),
            cache_prompt: self.cache_prompt,
            grammar: self.grammar.duplicate(),
        }
    }
}

/// Whether a step asks the model or only shows it text.
#[derive(Debug, Clone, Copy, PartialEq, Eq, Structural)]
pub enum StepKind {
    /// The model generates the step's content.
    Inference,
    /// The content is given: it shows the model what an answer looks like.
    Guidance,
}

/// A step of a round: pending until it has run, then executed for good.
#[derive(Debug, Clone, PartialEq, Eq)]
pub struct CascadeStep {
    pub kind: StepKind,
    pub step_config: StepConfig,
    /// The step's place in its round, counted from one.
    pub step_counter: usize,
    /// The raw content: what the model generated, or the guidance given.
    pub llm_content: Option<String>,
    /// The value that the content stands for.
    pub primitive_result: Option<String>,
    /// Text added after the content once the value is known.
    pub dynamic_suffix: Option<String>,
    /// Whether the step has run.
    pub executed: bool,
}

/// A step as plain values.
pub struct StepView {
    pub kind: StepKind,
    pub config: StepConfigView,
    pub step_counter: usize,
    pub llm_content: Option<Seq<char>>,
    pub primitive_result: Option<Seq<char>>,
    pub dynamic_suffix: Option<Seq<char>>,
    pub executed: bool,
}

impl View for CascadeStep {
    type V = StepView;

    open spec fn view(&self) -> StepView {
        StepView {
            kind: self.kind,
            config: self.step_config@,
            step_counter: self.step_counter,
            llm_content: opt_view(self.llm_content),
            primitive_result: opt_view(self.primitive_result),
            dynamic_suffix: opt_view(self.dynamic_suffix),
            executed: self.executed,
        }
    }
}

/// The text of an optional part, empty where there is none.
pub open spec fn or_empty(part: Option<Seq<char>>) -> Seq<char> {
    match part {
        Some(t) => t,
        None => Seq::empty(),
    }
}

/// What a step adds to the transcript of its round: prefix, content and
/// dynamic suffix, once it has run with content.
pub open spec fn outcome_text(step: StepView) -> Option<Seq<char>> {
    if step.executed && step.llm_content is Some {
        Some(
            or_empty(step.config.step_prefix) + step.llm_content->0 + or_empty(
                step.dynamic_suffix,
            ),
        )
    } else {
        None
    }
}

/// The output tokens that a step asks for: the limit of a text grammar.
pub open spec fn requested_tokens(grammar: GrammarView) -> Option<u64> {
    match grammar {
        GrammarView::Text { max_tokens } => Some(max_tokens as u64),
        _ => None,
    }
}

/// What a response gives a step: content and value, both absent where the
/// model declared that it has no answer. `None` where the content is no
/// value of the step's grammar.
pub open spec fn read_response(config: StepConfigView, response: CompletionResponse) -> Option<
    (Option<Seq<char>>, Option<Seq<char>>),
> {
    match response.finish_reason {
        CompletionFinishReason::MatchingStoppingSequence(StoppingSequence::NullResult(_)) => Some(
            (None, None),
        ),
        _ => match parsed(config.grammar, response.content@) {
            Some(value) => Some((Some(response.content@), Some(value))),
            None => None,
        },
    }
}

/// A request set up for a step: the step's markers, which the response
/// then has to end on, its grammar, the text that the response continues,
/// the hint on prompt reuse, and the output tokens asked for. The
/// conversation so far and the engine's progress are as before.
pub open spec fn prepared(request: RequestView, config: StepConfigView, prefix: Seq<char>) -> RequestView {
    RequestView {
        engine: EngineState {
            required: true,
            config: RequestConfig {
                cache_prompt: config.cache_prompt,
                requested_response_tokens: requested_tokens(config.grammar),
                ..request.engine.config
            },
            ..request.engine
        },
        done: Some(config.stop_word_done),
        no_result: config.stop_word_no_result,
        grammar: rendered_text(config.grammar),
        generation_prefix: Some(prefix),
        ..request
    }
}

/// A step after it has taken the outcome of its request. A response that
/// the step can read makes it a step that has run, with content and
/// value. A failed request, and content that is no value of the grammar,
/// leave the step as it was.
pub open spec fn completed(
    step: StepView,
    outcome: Result<CompletionResponse, CompletionError>,
) -> (StepView, Result<(), CascadeErrorView>) {
    match outcome {
        Err(e) => (step, Err(CascadeErrorView::Request(e))),
        Ok(response) => match read_response(step.config, response) {
            Some((content, value)) => (
                StepView {
                    llm_content: content,
                    primitive_result: value,
                    executed: true,
                    ..step
                },
                Ok(()),
            ),
            None => (
                step,
                Err(CascadeErrorView::Parse(refused(step.config.grammar, response.content@))),
            ),
        },
    }
}

impl CascadeStep {
    /// A pending step that asks the model.
    pub fn new_inference_step(step_config: StepConfig, step_counter: usize) -> (step: CascadeStep)
        ensures
            step@ == (StepView {
                kind: StepKind::Inference,
                config: step_config@,
                step_counter,
                llm_content: None,
                primitive_result: None,
                dynamic_suffix: None,
                executed: false,
            }),
    {
        CascadeStep {
            kind: StepKind::Inference,
            step_config,
            step_counter,
            llm_content: None,
            primitive_result: None,
            dynamic_suffix: None,
            executed: false,
        }
    }

    /// A pending step whose content is given.
    pub fn new_guidance_step(step_config: StepConfig, step_counter: usize, llm_content: &str) -> (step:
        CascadeStep)
        ensures
            step@ == (StepView {
                kind: StepKind::Guidance,
                config: step_config@,
                step_counter,
                llm_content: Some(llm_content@),
                primitive_result: None,
                dynamic_suffix: None,
                executed: false,
            }),
    {
        CascadeStep {
            kind: StepKind::Guidance,
            step_config,
            step_counter,
            llm_content: Some(llm_content.to_owned()),
            primitive_result: None,
            dynamic_suffix: None,
            executed: false,
        }
    }

    /// Sets the text that follows the step's content in the transcript.
    pub fn set_dynamic_suffix(&mut self, dynamic_suffix: String)
        ensures
            final(self)@ == (StepView { dynamic_suffix: Some(dynamic_suffix@), ..old(self)@ }),
    {
        self.dynamic_suffix = Some(dynamic_suffix);
    }

    /// What the step adds to the transcript of its round, once it has run with content.
    pub fn display_outcome(&self) -> (text: Option<String>)
        ensures
            opt_view(text) == outcome_text(self@),
    {
        if !self.executed {
            return None;
        }
        match &self.llm_content {
            None => None,
            Some(content) => {
                let mut text = String::new();
                if let Some(prefix) = &self.step_config.step_prefix {
                    text.append(prefix.as_str());
                }
                text.append(content.as_str());
                if let Some(suffix) = &self.dynamic_suffix {
                    text.append(suffix.as_str());
                }
                assert(text@ =~= outcome_text(self@)->0);
                Some(text)
            },
        }
    }

    /// Sets a request up for this step, with `generation_prefix` as the
    /// text that the response continues.
    pub fn prepare(&self, request: &mut CompletionRequest, generation_prefix: &str)
        ensures
            final(request)@ == prepared(old(request)@, self@.config, generation_prefix@),
    {
        let done = Some(self.step_config.stop_word_done.clone());
        request.set_base_req_stop_sequences(&done, &self.step_config.stop_word_no_result);
        request.grammar_string = self.step_config.grammar.grammar_string();
        request.prompt.set_generation_prefix(generation_prefix);
        request.config.cache_prompt = self.step_config.cache_prompt;
        request.config.requested_response_tokens = match &self.step_config.grammar {
            Grammar::Text { max_tokens } => Some(*max_tokens as u64),
            _ => None,
        };
    }

    /// Takes the outcome of the step's request.
    ///
    /// A response is read with the step's grammar; the step then has run
    /// and holds content and value. A failed request, or content that is
    /// no value of the grammar, leaves the step as it was.
    pub fn complete(&mut self, outcome: Result<CompletionResponse, CompletionError>) -> (result:
        Result<(), CascadeError>)
        ensures
            (final(self)@, result_view(result)) == completed(old(self)@, outcome),
            result is Err ==> *final(self) == *old(self),
    {
        match outcome {
            Err(e) => Err(CascadeError::Request(e)),
            Ok(response) => {
                match response.finish_reason {
                    CompletionFinishReason::MatchingStoppingSequence(
                        StoppingSequence::NullResult(_),
                    ) => {
                        self.llm_content = None;
                        self.primitive_result = None;
                        self.executed = true;
                        Ok(())
                    },
                    _ => {
                        match self.step_config.grammar.parse(response.content.as_str()) {
                            Err(e) => Err(CascadeError::Parse(e)),
                            Ok(value) => {
                                self.llm_content = Some(response.content);
                                self.primitive_result = Some(value);
                                self.executed = true;
                                Ok(())
                            },
                        }
                    },
                }
            },
        }
    }
}

} // verus!

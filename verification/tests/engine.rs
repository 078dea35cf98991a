use alith_engine::requests::components::{LogitBias, ToolDefinition};
use alith_engine::requests::config::{RequestConfig, RequestTokenLimitError};
use alith_engine::requests::error::CompletionError;
use alith_engine::requests::prompt::{LLMPrompt, PromptRole};
use alith_engine::requests::request::{
    BackendEvent, CompletionRequest, RequestAction, RequestPhase,
};
use alith_engine::requests::response::CompletionResponse;
use alith_engine::requests::stop_sequence::{
    CompletionFinishReason, StopSequences, StoppingSequence,
};

fn response(content: &str, finish_reason: CompletionFinishReason) -> CompletionResponse {
    CompletionResponse {
        id: "r".to_string(),
        content: content.to_string(),
        finish_reason,
        prompt_tokens: 0,
        completion_tokens: 0,
    }
}

fn measured(request: &mut CompletionRequest, tokens: u64) -> Option<RequestAction> {
    assert_eq!(request.start(7), RequestAction::BuildLogitBias);
    assert_eq!(
        request.advance(BackendEvent::LogitBias(Ok(()))),
        Some(RequestAction::CountPromptTokens)
    );
    request.advance(BackendEvent::PromptTokens(Ok(tokens)))
}

#[test]
fn new_config_has_no_budget() {
    let config = RequestConfig::new(100, 50);
    assert_eq!(config.model_ctx_size, 100);
    assert_eq!(config.inference_ctx_size, 50);
    assert_eq!(config.actual_request_tokens, None);
    assert_eq!(config.requested_response_tokens, None);
    assert_eq!(config.retry_after_fail_n_times, 3);
    assert!(config.increase_limit_on_fail);
    assert!(config.cache_prompt);
}

#[test]
fn budget_is_what_fits_clamped_to_the_inference_ceiling() {
    let mut config = RequestConfig::new(1000, 200);
    assert_eq!(config.set_max_tokens_for_request(900), Ok(()));
    assert_eq!(config.actual_request_tokens, Some(100));
    assert_eq!(config.set_max_tokens_for_request(100), Ok(()));
    assert_eq!(config.actual_request_tokens, Some(200));
}

#[test]
fn budget_is_the_request_where_it_fits() {
    let mut config = RequestConfig::new(1000, 200);
    config.requested_response_tokens = Some(50);
    assert_eq!(config.set_max_tokens_for_request(900), Ok(()));
    assert_eq!(config.actual_request_tokens, Some(50));
    config.requested_response_tokens = Some(500);
    assert_eq!(config.set_max_tokens_for_request(900), Ok(()));
    assert_eq!(config.actual_request_tokens, Some(100));
}

#[test]
fn prompt_that_fills_the_context_is_refused() {
    let mut config = RequestConfig::new(1000, 200);
    let before = config;
    assert_eq!(
        config.set_max_tokens_for_request(1000),
        Err(RequestTokenLimitError::PromptTokensExceeds { total_prompt_tokens: 1000, ctx_size: 1000 })
    );
    assert_eq!(config, before);
    assert_eq!(
        config.set_max_tokens_for_request(1001),
        Err(RequestTokenLimitError::PromptTokensExceeds { total_prompt_tokens: 1001, ctx_size: 1000 })
    );
    assert_eq!(config.set_max_tokens_for_request(999), Ok(()));
    assert_eq!(config.actual_request_tokens, Some(1));
}

#[test]
fn budget_grows_by_a_third() {
    let mut config = RequestConfig::new(1000, 200);
    config.requested_response_tokens = Some(50);
    config.set_max_tokens_for_request(100).unwrap();
    assert_eq!(config.increase_token_limit(100), Ok(()));
    assert_eq!(config.actual_request_tokens, Some(66));
    assert_eq!(config.requested_response_tokens, Some(66));
    assert_eq!(config.increase_token_limit(100), Ok(()));
    assert_eq!(config.actual_request_tokens, Some(87));
}

#[test]
fn budget_grows_by_one_token_at_least() {
    let mut config = RequestConfig::new(1000, 200);
    config.requested_response_tokens = Some(1);
    config.set_max_tokens_for_request(100).unwrap();
    assert_eq!(config.increase_token_limit(100), Ok(()));
    assert_eq!(config.actual_request_tokens, Some(2));
    let mut empty = RequestConfig::new(1000, 200);
    empty.requested_response_tokens = Some(0);
    empty.set_max_tokens_for_request(100).unwrap();
    assert_eq!(empty.increase_token_limit(100), Ok(()));
    assert_eq!(empty.actual_request_tokens, Some(1));
}

#[test]
fn growth_past_the_ceiling_is_an_error_and_not_clamped() {
    let mut config = RequestConfig::new(1000, 100);
    config.requested_response_tokens = Some(90);
    config.set_max_tokens_for_request(100).unwrap();
    assert_eq!(
        config.increase_token_limit(100),
        Err(RequestTokenLimitError::TokenLimitIncreaseError { initial_state: 90, limit: 100 })
    );
    assert_eq!(config.actual_request_tokens, Some(90));
    assert_eq!(config.requested_response_tokens, Some(90));
}

#[test]
fn growth_at_the_ceiling_fails() {
    let mut config = RequestConfig::new(1000, 100);
    config.set_max_tokens_for_request(100).unwrap();
    assert_eq!(config.actual_request_tokens, Some(100));
    assert_eq!(
        config.increase_token_limit(100),
        Err(RequestTokenLimitError::TokenLimitIncreaseError { initial_state: 100, limit: 100 })
    );
}

#[test]
fn growth_sets_a_budget_that_was_not_set() {
    let mut config = RequestConfig::new(1000, 100);
    config.requested_response_tokens = Some(10);
    assert_eq!(config.increase_token_limit(100), Ok(()));
    assert_eq!(config.actual_request_tokens, Some(13));
    let mut full = RequestConfig::new(100, 100);
    assert_eq!(
        full.increase_token_limit(100),
        Err(RequestTokenLimitError::PromptTokensExceeds { total_prompt_tokens: 100, ctx_size: 100 })
    );
}

#[test]
fn token_limit_messages() {
    assert_eq!(
        RequestTokenLimitError::PromptTokensExceeds { total_prompt_tokens: 1001, ctx_size: 1000 }
            .message(),
        "total_prompt_tokens (1001) exceeds ctx_size (1000)"
    );
    assert_eq!(
        RequestTokenLimitError::TokenLimitIncreaseError { initial_state: 90, limit: 100 }.message(),
        "output budget of 90 tokens cannot grow within the limit of 100"
    );
}

#[test]
fn completion_error_messages() {
    assert_eq!(
        CompletionError::RequestBuilderError("bad".to_string()).message(),
        "RequestBuilderError: bad"
    );
    assert_eq!(CompletionError::ClientError("down".to_string()).message(), "ClientError: down");
    assert_eq!(
        CompletionError::LocalClientError("down".to_string()).message(),
        "LocalClientError: down"
    );
    assert_eq!(
        CompletionError::RequestTokenLimitError(RequestTokenLimitError::PromptTokensExceeds {
            total_prompt_tokens: 5,
            ctx_size: 4
        })
        .message(),
        "RequestTokenLimitError: total_prompt_tokens (5) exceeds ctx_size (4)"
    );
    assert_eq!(
        CompletionError::StopReasonUnsupported("x".to_string()).message(),
        "StopReasonUnsupported: x"
    );
    assert_eq!(
        CompletionError::ExceededRetryCount { message: "m".to_string(), errors: vec![] }.message(),
        "ExceededRetryCount"
    );
    assert_eq!(
        CompletionError::ResponseContentEmpty.message(),
        "ResponseContentEmpty: Response had no content"
    );
    assert_eq!(
        CompletionError::StopLimitRetry.message(),
        "StopLimitRetry: stopped_limit == true && retry_stopped_limit == true"
    );
    assert_eq!(
        CompletionError::NoRequiredStopSequence.message(),
        "NoRequiredStopSequence: One of the sequences is required, but response has has None."
    );
    assert_eq!(
        CompletionError::NonMatchingStopSequence("###".to_string()).message(),
        "NonMatchingStopSequence: One of the sequences is required, but response's stop sequence was: ###."
    );
    assert_eq!(CompletionError::JsonError("eof".to_string()).message(), "JsonError: eof");
}

#[test]
fn only_three_kinds_of_error_are_fatal() {
    assert!(CompletionError::RequestBuilderError(String::new()).fatal());
    assert!(CompletionError::StopReasonUnsupported(String::new()).fatal());
    assert!(CompletionError::ClientError(String::new()).fatal());
    assert!(!CompletionError::LocalClientError(String::new()).fatal());
    assert!(!CompletionError::ResponseContentEmpty.fatal());
    assert!(!CompletionError::StopLimitRetry.fatal());
    assert!(!CompletionError::NoRequiredStopSequence.fatal());
    assert!(!CompletionError::NonMatchingStopSequence(String::new()).fatal());
    assert!(!CompletionError::JsonError(String::new()).fatal());
    assert!(!CompletionError::ExceededRetryCount { message: String::new(), errors: vec![] }.fatal());
    assert!(!CompletionError::RequestTokenLimitError(
        RequestTokenLimitError::TokenLimitIncreaseError { initial_state: 1, limit: 1 }
    )
    .fatal());
}

#[test]
fn stop_sequences_classify_a_stop() {
    let mut stops = StopSequences::new();
    assert_eq!(stops.to_vec(), Vec::<String>::new());
    stops.set_stop_word_done("Done.");
    stops.set_stop_word_no_result("None.");
    assert_eq!(stops.to_vec(), vec!["Done.".to_string(), "None.".to_string()]);
    assert_eq!(
        stops.classify(Some("Done.")),
        CompletionFinishReason::MatchingStoppingSequence(StoppingSequence::InferenceDone(
            "Done.".to_string()
        ))
    );
    assert_eq!(
        stops.classify(Some("None.")),
        CompletionFinishReason::MatchingStoppingSequence(StoppingSequence::NullResult(
            "None.".to_string()
        ))
    );
    assert_eq!(
        stops.classify(Some("Other")),
        CompletionFinishReason::NonMatchingStoppingSequence(Some("Other".to_string()))
    );
    assert_eq!(stops.classify(None), CompletionFinishReason::NonMatchingStoppingSequence(None));
    assert_eq!(StoppingSequence::NullResult("None.".to_string()).as_str(), "None.");
    stops.required = true;
    stops.clear();
    assert_eq!(stops.done, None);
    assert_eq!(stops.no_result, None);
    assert!(!stops.required);
}

#[test]
fn prompt_is_a_log_that_grows() {
    let mut prompt = LLMPrompt::new();
    prompt.add_user_message("hello");
    prompt.add_assistant_message("hi");
    prompt.add_message(PromptRole::System, "be brief");
    prompt.set_generation_prefix("The");
    assert_eq!(prompt.messages.len(), 3);
    assert_eq!(prompt.messages[0].role, PromptRole::User);
    assert_eq!(prompt.messages[0].content, "hello");
    assert_eq!(prompt.messages[1].role, PromptRole::Assistant);
    assert_eq!(prompt.messages[2].content, "be brief");
    assert_eq!(prompt.generation_prefix, Some("The".to_string()));
    prompt.clear_generation_prefix();
    assert_eq!(prompt.generation_prefix, None);
    assert_eq!(prompt.messages.len(), 3);
    prompt.reset_prompt();
    assert!(prompt.messages.is_empty());
}

#[test]
fn new_request_is_idle_and_empty() {
    let request = CompletionRequest::new(4096, 512);
    assert_eq!(request.phase, RequestPhase::Idle);
    assert_eq!(request.config, RequestConfig::new(4096, 512));
    assert!(request.prompt.messages.is_empty());
    assert!(request.llm_interface_errors.is_empty());
    assert_eq!(request.grammar_string, None);
    assert!(!request.stop_sequences.required);
}

#[test]
fn reset_forgets_the_conversation_and_keeps_the_configuration() {
    let mut request = CompletionRequest::new(4096, 512);
    request.prompt.add_user_message("hello");
    request.prompt.set_generation_prefix("The");
    request.grammar_string = Some("root ::= x".to_string());
    request.logit_bias = Some(LogitBias { entries: vec![(1, -100)] });
    request.tools.push(ToolDefinition {
        name: "sum".to_string(),
        description: "adds".to_string(),
        parameters: "{}".to_string(),
    });
    request.set_base_req_stop_sequences(&Some("a".to_string()), &Some("b".to_string()));
    assert!(request.stop_sequences.required);
    request.config.retry_after_fail_n_times = 9;
    request.reset_completion_request();
    assert_eq!(request.prompt.generation_prefix, None);
    assert_eq!(request.logit_bias, None);
    assert_eq!(request.tools.len(), 1);
    assert!(request.prompt.messages.is_empty());
    assert_eq!(request.grammar_string, None);
    assert_eq!(request.stop_sequences.done, None);
    assert_eq!(request.stop_sequences.no_result, None);
    assert!(!request.stop_sequences.required);
    assert_eq!(request.config.retry_after_fail_n_times, 9);
}

#[test]
fn response_without_a_marker_is_accepted_after_a_reset() {
    let mut request = CompletionRequest::new(4096, 512);
    request.set_base_req_stop_sequences(&Some("Done.".to_string()), &None);
    request.reset_completion_request();
    assert_eq!(measured(&mut request, 10), Some(RequestAction::Complete));
    let plain = response("text", CompletionFinishReason::Eos);
    assert_eq!(
        request.advance(BackendEvent::Completion(Ok(plain.clone()))),
        Some(RequestAction::Finish(Ok(plain)))
    );
}

#[test]
fn markers_of_a_step_replace_the_markers_before() {
    let mut request = CompletionRequest::new(4096, 512);
    request.set_base_req_stop_sequences(&Some("a".to_string()), &Some("b".to_string()));
    assert!(request.stop_sequences.required);
    request.set_base_req_stop_sequences(&None, &Some("c".to_string()));
    assert_eq!(request.stop_sequences.done, None);
    assert_eq!(request.stop_sequences.no_result, Some("c".to_string()));
    request.set_base_req_stop_sequences(&None, &None);
    assert_eq!(request.stop_sequences.no_result, Some("c".to_string()));
    assert!(request.stop_sequences.required);
}

#[test]
fn retry_ceiling_is_exact() {
    let mut request = CompletionRequest::new(4096, 512);
    request.config.retry_after_fail_n_times = 3;
    let mut attempts = 0;
    let mut action = measured(&mut request, 10);
    loop {
        match action {
            Some(RequestAction::Complete) => {
                attempts += 1;
                action = request
                    .advance(BackendEvent::Completion(Err(CompletionError::ResponseContentEmpty)));
            }
            other => {
                assert_eq!(
                    other,
                    Some(RequestAction::Finish(Err(CompletionError::ExceededRetryCount {
                        message: "Request failed after 3 attempts.".to_string(),
                        errors: vec![
                            CompletionError::ResponseContentEmpty,
                            CompletionError::ResponseContentEmpty,
                            CompletionError::ResponseContentEmpty,
                        ],
                    })))
                );
                break;
            }
        }
    }
    assert_eq!(attempts, 3);
    assert_eq!(request.phase, RequestPhase::Idle);
    assert!(request.llm_interface_errors.is_empty());
}

#[test]
fn retry_ceiling_of_zero_makes_no_attempt() {
    let mut request = CompletionRequest::new(4096, 512);
    request.config.retry_after_fail_n_times = 0;
    assert_eq!(
        measured(&mut request, 10),
        Some(RequestAction::Finish(Err(CompletionError::ExceededRetryCount {
            message: "Request failed after 0 attempts.".to_string(),
            errors: vec![],
        })))
    );
}

#[test]
fn fatal_error_ends_the_request_after_one_attempt() {
    for fatal in [
        CompletionError::ClientError("down".to_string()),
        CompletionError::RequestBuilderError("bad".to_string()),
        CompletionError::StopReasonUnsupported("odd".to_string()),
    ] {
        let mut request = CompletionRequest::new(4096, 512);
        request.config.retry_after_fail_n_times = 200;
        assert_eq!(measured(&mut request, 10), Some(RequestAction::Complete));
        let expected = match &fatal {
            CompletionError::ClientError(m) => CompletionError::ClientError(m.clone()),
            CompletionError::RequestBuilderError(m) => {
                CompletionError::RequestBuilderError(m.clone())
            }
            CompletionError::StopReasonUnsupported(m) => {
                CompletionError::StopReasonUnsupported(m.clone())
            }
            _ => unreachable!(),
        };
        assert_eq!(
            request.advance(BackendEvent::Completion(Err(fatal))),
            Some(RequestAction::Finish(Err(expected)))
        );
        assert_eq!(request.phase, RequestPhase::Idle);
        assert_eq!(request.retry_count, 1);
        assert!(request.llm_interface_errors.is_empty());
    }
}

#[test]
fn budget_growth_is_monotonic_and_bounded() {
    let mut request = CompletionRequest::new(1000, 20);
    request.config.retry_after_fail_n_times = 10;
    request.config.requested_response_tokens = Some(10);
    assert_eq!(measured(&mut request, 10), Some(RequestAction::Complete));
    let mut budgets = vec![request.config.actual_request_tokens.unwrap()];
    let last = loop {
        let action = request
            .advance(BackendEvent::Completion(Ok(response("cut", CompletionFinishReason::StopLimit))));
        assert!(request.config.actual_request_tokens.unwrap() <= 20);
        match action {
            Some(RequestAction::Complete) => {
                budgets.push(request.config.actual_request_tokens.unwrap())
            }
            other => break other,
        }
    };
    assert_eq!(budgets, vec![10, 13, 17]);
    assert_eq!(
        last,
        Some(RequestAction::Finish(Err(CompletionError::RequestTokenLimitError(
            RequestTokenLimitError::TokenLimitIncreaseError { initial_state: 17, limit: 20 }
        ))))
    );
    assert_eq!(request.phase, RequestPhase::Idle);
    assert_eq!(
        request.llm_interface_errors,
        vec![
            CompletionError::StopLimitRetry,
            CompletionError::StopLimitRetry,
            CompletionError::StopLimitRetry
        ]
    );
}

#[test]
fn cut_off_response_is_accepted_where_the_budget_does_not_grow() {
    let mut request = CompletionRequest::new(1000, 20);
    request.config.increase_limit_on_fail = false;
    assert_eq!(measured(&mut request, 10), Some(RequestAction::Complete));
    let cut = response("cut", CompletionFinishReason::StopLimit);
    assert_eq!(
        request.advance(BackendEvent::Completion(Ok(cut.clone()))),
        Some(RequestAction::Finish(Ok(cut)))
    );
}

#[test]
fn responses_are_accepted_at_once_where_no_marker_is_required() {
    for reason in [
        CompletionFinishReason::Eos,
        CompletionFinishReason::ToolsCall,
        CompletionFinishReason::NonMatchingStoppingSequence(None),
        CompletionFinishReason::NonMatchingStoppingSequence(Some("x".to_string())),
        CompletionFinishReason::MatchingStoppingSequence(StoppingSequence::InferenceDone(
            "d".to_string(),
        )),
    ] {
        let mut request = CompletionRequest::new(1000, 20);
        assert_eq!(measured(&mut request, 10), Some(RequestAction::Complete));
        let answer = response("text", reason);
        assert_eq!(
            request.advance(BackendEvent::Completion(Ok(answer.clone()))),
            Some(RequestAction::Finish(Ok(answer)))
        );
        assert_eq!(request.retry_count, 0);
    }
}

#[test]
fn required_marker_is_enforced() {
    let mut request = CompletionRequest::new(1000, 20);
    request.config.increase_limit_on_fail = false;
    request.set_base_req_stop_sequences(&Some("Done.".to_string()), &None);
    assert_eq!(measured(&mut request, 10), Some(RequestAction::Complete));
    assert_eq!(
        request.advance(BackendEvent::Completion(Ok(response("a", CompletionFinishReason::Eos)))),
        Some(RequestAction::Complete)
    );
    assert_eq!(
        request.advance(BackendEvent::Completion(Ok(response(
            "a",
            CompletionFinishReason::NonMatchingStoppingSequence(Some("###".to_string()))
        )))),
        Some(RequestAction::Complete)
    );
    assert_eq!(
        request.llm_interface_errors,
        vec![
            CompletionError::NoRequiredStopSequence,
            CompletionError::NonMatchingStopSequence("###".to_string())
        ]
    );
    let done = response(
        "a",
        CompletionFinishReason::MatchingStoppingSequence(StoppingSequence::InferenceDone(
            "Done.".to_string(),
        )),
    );
    assert_eq!(
        request.advance(BackendEvent::Completion(Ok(done.clone()))),
        Some(RequestAction::Finish(Ok(done)))
    );
    assert_eq!(request.retry_count, 2);
}

#[test]
fn required_marker_that_is_missing_grows_the_budget() {
    let mut request = CompletionRequest::new(1000, 20);
    request.config.requested_response_tokens = Some(10);
    request.set_base_req_stop_sequences(&Some("Done.".to_string()), &None);
    assert_eq!(measured(&mut request, 10), Some(RequestAction::Complete));
    assert_eq!(
        request.advance(BackendEvent::Completion(Ok(response(
            "a",
            CompletionFinishReason::StopLimit
        )))),
        Some(RequestAction::Complete)
    );
    assert_eq!(request.config.actual_request_tokens, Some(13));
    assert_eq!(request.llm_interface_errors, vec![CompletionError::NoRequiredStopSequence]);
}

#[test]
fn builder_failures_end_the_request_before_any_attempt() {
    let mut request = CompletionRequest::new(4096, 512);
    request.start(1);
    assert_eq!(
        request.advance(BackendEvent::LogitBias(Err("no table".to_string()))),
        Some(RequestAction::Finish(Err(CompletionError::RequestBuilderError(
            "no table".to_string()
        ))))
    );
    assert_eq!(request.phase, RequestPhase::Idle);
    request.start(2);
    request.advance(BackendEvent::LogitBias(Ok(())));
    assert_eq!(
        request.advance(BackendEvent::PromptTokens(Err("no tokenizer".to_string()))),
        Some(RequestAction::Finish(Err(CompletionError::RequestBuilderError(
            "no tokenizer".to_string()
        ))))
    );
    request.start(3);
    request.advance(BackendEvent::LogitBias(Ok(())));
    assert_eq!(
        request.advance(BackendEvent::PromptTokens(Ok(4096))),
        Some(RequestAction::Finish(Err(CompletionError::RequestTokenLimitError(
            RequestTokenLimitError::PromptTokensExceeds { total_prompt_tokens: 4096, ctx_size: 4096 }
        ))))
    );
    assert_eq!(request.start_time, 3);
}

#[test]
fn event_that_answers_nothing_is_ignored() {
    let mut request = CompletionRequest::new(4096, 512);
    assert_eq!(request.advance(BackendEvent::LogitBias(Ok(()))), None);
    request.start(1);
    assert_eq!(request.advance(BackendEvent::PromptTokens(Ok(1))), None);
    assert_eq!(
        request.advance(BackendEvent::Completion(Err(CompletionError::ResponseContentEmpty))),
        None
    );
    assert_eq!(request.phase, RequestPhase::BuildingLogitBias);
    assert_eq!(request.retry_count, 0);
    assert!(request.llm_interface_errors.is_empty());
}

#[test]
fn start_clears_the_log_of_the_request_before() {
    let mut request = CompletionRequest::new(4096, 512);
    assert_eq!(measured(&mut request, 10), Some(RequestAction::Complete));
    request.advance(BackendEvent::Completion(Err(CompletionError::ResponseContentEmpty)));
    assert_eq!(request.llm_interface_errors.len(), 1);
    assert_eq!(request.retry_count, 1);
    request.start(9);
    assert!(request.llm_interface_errors.is_empty());
    assert_eq!(request.retry_count, 0);
    assert_eq!(request.start_time, 9);
}

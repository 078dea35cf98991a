use alith_engine::cascade::error::CascadeError;
use alith_engine::cascade::flow::FlowState;
use alith_engine::cascade::round::{CascadeRound, RoundState, StepAction};
use alith_engine::cascade::step::StepConfig;
use alith_engine::primitives::grammar::ParseError;
use alith_engine::requests::error::CompletionError;
use alith_engine::requests::prompt::PromptRole;
use alith_engine::requests::request::{BackendEvent, CompletionRequest, RequestAction};
use alith_engine::requests::response::CompletionResponse;
use alith_engine::requests::stop_sequence::{CompletionFinishReason, StoppingSequence};
use alith_engine::workflows::extract::{
    ExtractAction, ExtractError, ExtractPhase, ExtractUrls, APOLOGY, CHECKED, GUIDANCE,
    GUIDANCE_TASK, NEXT_TASK, NO_RESULT,
};
use alith_engine::workflows::instruct_prompt::InstructPrompt;
use alith_engine::workflows::urls::{collect_unique, extract_urls};

const MATERIAL: &str = "Try https://A.com now, https://b.com later and https://c.com never.";
const INSTRUCTIONS: &str = "Which of these URLs sell shoes?";

fn answer(content: &str, marker: &str) -> Result<CompletionResponse, CompletionError> {
    Ok(CompletionResponse {
        id: "r".to_string(),
        content: content.to_string(),
        finish_reason: CompletionFinishReason::MatchingStoppingSequence(
            StoppingSequence::InferenceDone(marker.to_string()),
        ),
        prompt_tokens: 0,
        completion_tokens: 0,
    })
}

fn sentinel() -> Result<CompletionResponse, CompletionError> {
    Ok(CompletionResponse {
        id: "r".to_string(),
        content: String::new(),
        finish_reason: CompletionFinishReason::MatchingStoppingSequence(
            StoppingSequence::NullResult(NO_RESULT.to_string()),
        ),
        prompt_tokens: 0,
        completion_tokens: 0,
    })
}

fn workflow(max_urls: usize) -> ExtractUrls {
    let mut workflow = ExtractUrls::new(CompletionRequest::new(8192, 1024)).max_urls(max_urls);
    workflow.instruct_prompt_mut().set_instructions(INSTRUCTIONS);
    workflow.instruct_prompt_mut().set_supporting_material(MATERIAL);
    workflow
}

fn with_criteria(max_urls: usize) -> ExtractUrls {
    let mut workflow = workflow(max_urls);
    assert_eq!(workflow.start(1000), ExtractAction::Request);
    assert_eq!(workflow.advance(answer("sells shoes", "\n"), 1001), ExtractAction::Request);
    workflow
}

/// The model of the scenario: it picks the first candidate that is left,
/// accepts the first URL only, and denies that any other can qualify.
fn oracle(workflow: &ExtractUrls) -> Result<CompletionResponse, CompletionError> {
    match workflow.phase {
        ExtractPhase::CriteriaDescription => answer("sells shoes", "\n"),
        ExtractPhase::CriteriaStatement => answer("a shop for shoes", ": true or false"),
        ExtractPhase::Extract => answer(&workflow.primitive.allowed_strings[0], "\n"),
        ExtractPhase::Validate => {
            if workflow.candidate.as_deref() == Some("https://a.com/") {
                answer("true", "\n")
            } else {
                answer("false", "\n")
            }
        }
        ExtractPhase::CheckRemaining => answer("false", "\n"),
        _ => panic!("no step is awaited"),
    }
}

#[test]
fn urls_are_found_parsed_and_kept_once() {
    assert_eq!(
        extract_urls(MATERIAL),
        vec![
            "https://a.com/".to_string(),
            "https://b.com/".to_string(),
            "https://c.com/".to_string()
        ]
    );
    assert_eq!(
        extract_urls("https://a.com/x, (https://b.com/y) https://A.com/x and mail me@a.com"),
        vec!["https://a.com/x".to_string(), "https://b.com/y".to_string()]
    );
    assert_eq!(extract_urls("a.com has no scheme"), Vec::<String>::new());
    assert_eq!(extract_urls(""), Vec::<String>::new());
}

#[test]
fn parsed_urls_are_kept_where_they_occur_first() {
    assert_eq!(
        collect_unique(vec![
            Some("b".to_string()),
            None,
            Some("a".to_string()),
            Some("b".to_string()),
            None,
            Some("c".to_string()),
            Some("a".to_string()),
        ]),
        vec!["b".to_string(), "a".to_string(), "c".to_string()]
    );
    assert_eq!(collect_unique(vec![None, None]), Vec::<String>::new());
    assert_eq!(collect_unique(Vec::new()), Vec::<String>::new());
}

#[test]
fn instruct_prompt_holds_instructions_and_material() {
    let mut prompt = InstructPrompt::new();
    assert_eq!(prompt.build_instructions(), None);
    prompt.set_instructions("do");
    prompt.set_supporting_material("text");
    assert_eq!(prompt.build_instructions(), Some("do".to_string()));
    assert_eq!(prompt.build_supporting_material(), Some("text".to_string()));
    prompt.reset_instruct_prompt();
    assert_eq!(prompt.build_instructions(), None);
    assert_eq!(prompt.build_supporting_material(), None);
}

#[test]
fn new_workflow_takes_five_urls() {
    let workflow = ExtractUrls::new(CompletionRequest::new(8192, 1024));
    assert_eq!(workflow.max_urls, 5);
    assert_eq!(workflow.criteria, None);
    assert!(workflow.results.is_empty());
    assert_eq!(workflow.phase, ExtractPhase::Idle);
    assert_eq!(workflow.max_urls(2).max_urls, 2);
}

#[test]
fn run_does_not_start_without_urls() {
    let mut workflow = ExtractUrls::new(CompletionRequest::new(8192, 1024));
    workflow.instruct_prompt_mut().set_instructions("no links here");
    workflow.instruct_prompt_mut().set_supporting_material("nor here");
    assert_eq!(workflow.start(0), ExtractAction::Done(Err(ExtractError::NoUrlsFound)));
    assert!(workflow.base_req.prompt.messages.is_empty());
    assert!(workflow.flow.rounds.is_empty());
    let mut empty = ExtractUrls::new(CompletionRequest::new(8192, 1024));
    assert_eq!(empty.start(0), ExtractAction::Done(Err(ExtractError::NoUrlsFound)));
}

#[test]
fn run_does_not_start_without_instructions_or_material() {
    let mut workflow = ExtractUrls::new(CompletionRequest::new(8192, 1024));
    workflow.instruct_prompt_mut().set_supporting_material(MATERIAL);
    assert_eq!(workflow.start(0), ExtractAction::Done(Err(ExtractError::MissingInstructions)));
    let mut workflow = ExtractUrls::new(CompletionRequest::new(8192, 1024));
    workflow.instruct_prompt_mut().set_instructions(MATERIAL);
    assert_eq!(
        workflow.start(0),
        ExtractAction::Done(Err(ExtractError::MissingSupportingMaterial))
    );
    assert_eq!(workflow.phase, ExtractPhase::Finished);
}

#[test]
fn outcome_without_a_run_is_refused() {
    let mut workflow = ExtractUrls::new(CompletionRequest::new(8192, 1024));
    assert_eq!(
        workflow.advance(answer("x", "\n"), 0),
        ExtractAction::Done(Err(ExtractError::NotRunning))
    );
    assert_eq!(workflow.phase, ExtractPhase::Idle);
}

#[test]
fn run_starts_with_the_criteria() {
    let mut workflow = workflow(2);
    assert_eq!(workflow.start(1000), ExtractAction::Request);
    assert_eq!(workflow.phase, ExtractPhase::CriteriaDescription);
    assert_eq!(
        workflow.primitive.allowed_strings,
        vec!["https://a.com/".to_string(), "https://b.com/".to_string(), "https://c.com/".to_string()]
    );
    assert_eq!(workflow.flow.cascade_name, "ExtractUrls");
    assert_eq!(workflow.flow.start_time, 1000);
    assert_eq!(workflow.flow.rounds.len(), 2);
    assert_eq!(workflow.flow.rounds[0].task, GUIDANCE_TASK);
    assert_eq!(workflow.flow.rounds[0].state, RoundState::Closed);
    assert_eq!(workflow.flow.rounds[0].steps[0].llm_content.as_deref(), Some(GUIDANCE));
    assert_eq!(
        workflow.flow.rounds[1].task,
        "We are extracting URLs from text using the instructions:\nWhich of these URLs sell shoes? Briefly describe the criteria of the URLs to be extracted."
    );
    assert_eq!(workflow.flow.rounds[1].state, RoundState::Open);
    let messages = &workflow.base_req.prompt.messages;
    assert_eq!(messages.len(), 3);
    assert_eq!(messages[0].role, PromptRole::User);
    assert_eq!(messages[0].content, GUIDANCE_TASK);
    assert_eq!(messages[1].role, PromptRole::Assistant);
    assert_eq!(messages[1].content, GUIDANCE);
    assert_eq!(messages[2].role, PromptRole::User);
    assert_eq!(workflow.base_req.prompt.generation_prefix, Some("Criteria: ".to_string()));
    assert_eq!(workflow.base_req.config.requested_response_tokens, Some(200));
    assert_eq!(workflow.base_req.stop_sequences.done, Some("\n".to_string()));
    assert!(workflow.base_req.stop_sequences.required);

    assert_eq!(workflow.advance(answer(" sells shoes ", "\n"), 1001), ExtractAction::Request);
    assert_eq!(workflow.phase, ExtractPhase::CriteriaStatement);
    assert_eq!(workflow.flow.rounds.len(), 3);
    assert_eq!(
        workflow.flow.rounds[2].task,
        "Reframe the instructions and criteria into a statment used to evaluate if a URL should be extracted. This statement should have a boolean answer. The answer should represent whether or not the URL satisfies the criteria. This should be a single sentence 'is' statment; as in, 'The URL is <criteria>: true or false'.\nCriteria:\nsells shoes\nInstructions:\nWhich of these URLs sell shoes?"
    );
    assert_eq!(workflow.base_req.prompt.generation_prefix, Some("The URL is ".to_string()));
    assert_eq!(workflow.base_req.stop_sequences.done, Some(": true or false".to_string()));

    assert_eq!(
        workflow.advance(answer("a shop for shoes", ": true or false"), 1002),
        ExtractAction::Request
    );
    assert_eq!(workflow.criteria, Some("a shop for shoes".to_string()));
    assert_eq!(workflow.phase, ExtractPhase::Extract);
    assert_eq!(workflow.iteration, 1);
    assert_eq!(workflow.total, 3);
    assert_eq!(workflow.flow.rounds.len(), 4);
    assert_eq!(workflow.flow.rounds[3].step_separator, None);
    assert_eq!(
        workflow.flow.rounds[3].task,
        "Text with URLs to extract:\nTry https://A.com now, https://b.com later and https://c.com never.\nReturn the URL that is most likely relevant to the criteria. If you are certain the text contains no qualifying URLs say 'No qualifying URLs.'.\nCriteria:\n This URL is a shop for shoes."
    );
    assert_eq!(workflow.base_req.stop_sequences.no_result, Some(NO_RESULT.to_string()));
    assert_eq!(
        workflow.base_req.grammar_string,
        Some("root ::= \"https://a.com/\" | \"https://b.com/\" | \"https://c.com/\"".to_string())
    );
    assert!(workflow.base_req.config.cache_prompt);
    assert_eq!(workflow.base_req.config.requested_response_tokens, None);
}

#[test]
fn negative_check_remaining_prunes_the_selection() {
    let mut workflow = workflow(2);
    let mut action = workflow.start(1000);
    let mut requests = 0;
    let result = loop {
        match action {
            ExtractAction::Request => {
                requests += 1;
                let outcome = oracle(&workflow);
                action = workflow.advance(outcome, 1000 + requests);
            }
            ExtractAction::Done(result) => break result.unwrap(),
        }
    };
    assert_eq!(result.results, Some(vec!["https://a.com/".to_string()]));
    assert_eq!(result.criteria, "a shop for shoes");
    assert_eq!(requests, 7);
    assert_eq!(result.duration, 7);
    assert_eq!(result.workflow.duration, 7);
    assert_eq!(result.workflow.state, FlowState::Closed);
    assert_eq!(result.workflow.rounds.len(), 5);
    assert!(result.workflow.rounds.iter().all(|round| round.state == RoundState::Closed));
    assert_eq!(result.workflow.rounds[4].task, NEXT_TASK);
    let last = &result.workflow.rounds[4].steps;
    assert_eq!(last.len(), 3);
    assert_eq!(last[0].llm_content.as_deref(), Some("https://b.com/"));
    assert_eq!(last[1].step_config.step_prefix.as_deref(), Some(" is a shop for shoes: "));
    assert_eq!(last[1].dynamic_suffix.as_deref(), Some(APOLOGY));
    assert_eq!(
        last[2].step_config.step_prefix.as_deref(),
        Some("At least one of the remaining URLs, https://c.com/, is a shop for shoes: ")
    );
    assert_eq!(last[2].dynamic_suffix.as_deref(), Some(CHECKED));
    assert_eq!(workflow.results, vec!["https://a.com/".to_string()]);
    assert_eq!(workflow.primitive.allowed_strings, vec!["https://c.com/".to_string()]);
    assert_eq!(workflow.phase, ExtractPhase::Finished);
    let transcript = &workflow.base_req.prompt.messages.last().unwrap().content;
    assert_eq!(
        transcript,
        "https://b.com/ is a shop for shoes: false. I apologize. This URL does not meet the criteria and was returned by mistake. In the future, we'll only return URLs that satisfy the criteria.\nAt least one of the remaining URLs, https://c.com/, is a shop for shoes: false.\n"
    );
}

#[test]
fn scenario_holds_through_the_request_engine() {
    let mut workflow = workflow(2);
    let mut action = workflow.start(0);
    let mut completions = 0;
    let result = loop {
        match action {
            ExtractAction::Done(result) => break result.unwrap(),
            ExtractAction::Request => {
                let mut step = Some(workflow.base_req.start(0));
                let outcome = loop {
                    let event = match step {
                        Some(RequestAction::BuildLogitBias) => BackendEvent::LogitBias(Ok(())),
                        Some(RequestAction::CountPromptTokens) => {
                            BackendEvent::PromptTokens(Ok(100))
                        }
                        Some(RequestAction::Complete) => {
                            completions += 1;
                            BackendEvent::Completion(oracle(&workflow))
                        }
                        Some(RequestAction::Finish(outcome)) => break outcome,
                        None => panic!("the engine ignored an event"),
                    };
                    step = workflow.base_req.advance(event);
                };
                action = workflow.advance(outcome, 0);
            }
        }
    };
    assert_eq!(result.results, Some(vec!["https://a.com/".to_string()]));
    assert_eq!(completions, 7);
}

#[test]
fn first_pick_that_is_the_sentinel_ends_the_run_without_urls() {
    let mut workflow = with_criteria(2);
    assert_eq!(
        workflow.advance(answer("a shop for shoes", ": true or false"), 1002),
        ExtractAction::Request
    );
    assert_eq!(workflow.flow.rounds.len(), 4);
    let action = workflow.advance(sentinel(), 1500);
    let result = match action {
        ExtractAction::Done(Ok(result)) => result,
        other => panic!("{:?}", other),
    };
    assert_eq!(result.results, None);
    assert_eq!(result.criteria, "a shop for shoes");
    assert_eq!(result.duration, 500);
    assert_eq!(result.workflow.rounds.len(), 4);
    assert!(result.workflow.rounds.iter().all(|round| round.state == RoundState::Closed));
    assert_eq!(result.workflow.rounds[3].steps.len(), 1);
    assert!(workflow.results.is_empty());
    assert_eq!(workflow.primitive.allowed_strings.len(), 3);
    assert_eq!(
        workflow.advance(sentinel(), 1501),
        ExtractAction::Done(Err(ExtractError::NotRunning))
    );
}

#[test]
fn selection_stops_at_the_limit() {
    let mut workflow = with_criteria(1);
    workflow.advance(answer("a shop for shoes", ": true or false"), 0);
    assert_eq!(workflow.advance(answer("https://b.com/", "\n"), 0), ExtractAction::Request);
    assert_eq!(workflow.phase, ExtractPhase::Validate);
    assert_eq!(workflow.candidate, Some("https://b.com/".to_string()));
    let result = match workflow.advance(answer("true", "\n"), 0) {
        ExtractAction::Done(Ok(result)) => result,
        other => panic!("{:?}", other),
    };
    assert_eq!(result.results, Some(vec!["https://b.com/".to_string()]));
    assert_eq!(result.workflow.rounds.len(), 4);
}

#[test]
fn limit_of_zero_picks_nothing() {
    let mut workflow = with_criteria(0);
    let result = match workflow.advance(answer("a shop for shoes", ": true or false"), 0) {
        ExtractAction::Done(Ok(result)) => result,
        other => panic!("{:?}", other),
    };
    assert_eq!(result.results, None);
    assert_eq!(result.workflow.rounds.len(), 4);
    assert!(result.workflow.rounds.iter().all(|round| round.state == RoundState::Closed));
}

#[test]
fn selection_ends_when_every_candidate_had_its_turn() {
    let mut workflow = with_criteria(5);
    let mut action = workflow.advance(answer("a shop for shoes", ": true or false"), 0);
    let mut picks = 0;
    let result = loop {
        match action {
            ExtractAction::Done(result) => break result.unwrap(),
            ExtractAction::Request => {
                let outcome = match workflow.phase {
                    ExtractPhase::Extract => {
                        picks += 1;
                        answer(workflow.primitive.allowed_strings.last().unwrap(), "\n")
                    }
                    ExtractPhase::Validate => {
                        if workflow.candidate.as_deref() == Some("https://b.com/") {
                            answer("false", "\n")
                        } else {
                            answer("true", "\n")
                        }
                    }
                    _ => answer("true", "\n"),
                };
                action = workflow.advance(outcome, 0);
            }
        }
    };
    assert_eq!(picks, 3);
    assert_eq!(
        result.results,
        Some(vec!["https://c.com/".to_string(), "https://a.com/".to_string()])
    );
    assert_eq!(result.workflow.rounds.len(), 6);
    assert!(workflow.primitive.allowed_strings.is_empty());
}

#[test]
fn failed_request_ends_the_run() {
    let mut workflow = with_criteria(2);
    assert_eq!(
        workflow.advance(Err(CompletionError::ClientError("down".to_string())), 0),
        ExtractAction::Done(Err(ExtractError::Cascade(CascadeError::Request(
            CompletionError::ClientError("down".to_string())
        ))))
    );
    assert_eq!(workflow.phase, ExtractPhase::Finished);
    assert_eq!(workflow.flow.rounds.len(), 3);
    assert!(workflow.flow.rounds.iter().all(|round| round.state == RoundState::Closed));
    assert!(!workflow.flow.rounds[2].steps[0].executed);
    assert!(workflow.results.is_empty());
}

#[test]
fn failed_step_in_the_selection_keeps_what_was_accepted_and_leaves_no_round_open() {
    let mut workflow = with_criteria(3);
    workflow.advance(answer("a shop for shoes", ": true or false"), 0);
    workflow.advance(answer("https://a.com/", "\n"), 0);
    assert_eq!(workflow.advance(answer("true", "\n"), 0), ExtractAction::Request);
    assert_eq!(workflow.results, vec!["https://a.com/".to_string()]);
    assert_eq!(workflow.advance(answer("https://b.com/", "\n"), 0), ExtractAction::Request);
    assert_eq!(workflow.flow.rounds[4].state, RoundState::Open);
    assert_eq!(
        workflow.advance(
            Err(CompletionError::ExceededRetryCount { message: "m".to_string(), errors: vec![] }),
            0
        ),
        ExtractAction::Done(Err(ExtractError::Cascade(CascadeError::Request(
            CompletionError::ExceededRetryCount { message: "m".to_string(), errors: vec![] }
        ))))
    );
    assert_eq!(workflow.results, vec!["https://a.com/".to_string()]);
    assert_eq!(workflow.primitive.allowed_strings, vec!["https://c.com/".to_string()]);
    assert_eq!(workflow.flow.rounds.len(), 5);
    assert!(workflow.flow.rounds.iter().all(|round| round.state == RoundState::Closed));
    assert!(!workflow.flow.rounds[4].step_in_progress);
    assert_eq!(workflow.flow.state, FlowState::Open);
    assert_eq!(workflow.phase, ExtractPhase::Finished);
    assert_eq!(
        workflow.advance(answer("true", "\n"), 0),
        ExtractAction::Done(Err(ExtractError::NotRunning))
    );
}

#[test]
fn pick_that_is_no_candidate_ends_the_run() {
    let mut workflow = with_criteria(2);
    workflow.advance(answer("a shop for shoes", ": true or false"), 0);
    assert_eq!(
        workflow.advance(answer("https://d.com/", "\n"), 0),
        ExtractAction::Done(Err(ExtractError::Cascade(CascadeError::Parse(
            ParseError::NotAllowed("https://d.com/".to_string())
        ))))
    );
    assert_eq!(workflow.primitive.allowed_strings.len(), 3);
    assert!(workflow.flow.rounds.iter().all(|round| round.state == RoundState::Closed));
}

#[test]
fn pick_is_taken_from_the_candidates_before_it_is_judged() {
    let mut workflow = with_criteria(2);
    workflow.advance(answer("a shop for shoes", ": true or false"), 0);
    assert_eq!(workflow.advance(answer("https://b.com/", "\n"), 0), ExtractAction::Request);
    assert_eq!(workflow.phase, ExtractPhase::Validate);
    assert_eq!(
        workflow.primitive.allowed_strings,
        vec!["https://a.com/".to_string(), "https://c.com/".to_string()]
    );
    assert!(workflow.results.is_empty());
    assert_eq!(workflow.flow.rounds.len(), 4);
    assert_eq!(workflow.base_req.grammar_string, Some("root ::= \"true\" | \"false\"".to_string()));
}

#[test]
fn steps_of_the_selection_need_a_round() {
    let mut workflow = workflow(2);
    assert_eq!(
        workflow.extract_step(),
        ExtractAction::Done(Err(ExtractError::Cascade(CascadeError::NoRounds)))
    );
    assert!(workflow.flow.rounds.is_empty());
    assert!(workflow.base_req.prompt.messages.is_empty());
    assert_eq!(workflow.base_req.grammar_string, None);
    assert!(workflow.primitive.allowed_strings.is_empty());
    assert_eq!(workflow.phase, ExtractPhase::Finished);
    assert_eq!(
        workflow.validate_step(),
        ExtractAction::Done(Err(ExtractError::Cascade(CascadeError::NoRounds)))
    );
    assert_eq!(
        workflow.check_for_remaining(),
        ExtractAction::Done(Err(ExtractError::Cascade(CascadeError::NoRounds)))
    );
}

#[test]
fn selection_can_be_begun_on_its_own() {
    let mut workflow = workflow(2);
    workflow.primitive.add_strings_to_allowed(&vec!["x".to_string(), "y".to_string()]);
    workflow.criteria = Some("short".to_string());
    workflow.flow.open_cascade(5);
    assert_eq!(workflow.run_cascade(9), ExtractAction::Request);
    assert_eq!(workflow.phase, ExtractPhase::Extract);
    assert_eq!(workflow.total, 2);
    assert_eq!(workflow.iteration, 1);
    assert_eq!(workflow.flow.rounds.len(), 1);
    assert_eq!(workflow.flow.rounds[0].state, RoundState::Open);
    assert_eq!(workflow.flow.rounds[0].steps.len(), 1);
    assert_eq!(
        workflow.base_req.grammar_string,
        Some("root ::= \"x\" | \"y\"".to_string())
    );
    let result = match workflow.advance(sentinel(), 25) {
        ExtractAction::Done(Ok(result)) => result,
        other => panic!("{:?}", other),
    };
    assert_eq!(result.results, None);
    assert_eq!(result.duration, 20);
    assert_eq!(result.workflow.rounds.len(), 1);
    assert_eq!(result.workflow.rounds[0].state, RoundState::Closed);
    let mut unwanted = ExtractUrls::new(CompletionRequest::new(8192, 1024)).max_urls(0);
    unwanted.primitive.add_strings_to_allowed(&vec!["x".to_string()]);
    unwanted.flow.open_cascade(5);
    let ended = match unwanted.run_cascade(6) {
        ExtractAction::Done(Ok(result)) => result,
        other => panic!("{:?}", other),
    };
    assert_eq!(ended.workflow.rounds.len(), 1);
    assert_eq!(ended.workflow.rounds[0].state, RoundState::Closed);
    assert!(ended.workflow.rounds[0].steps.is_empty());
}

#[test]
fn criteria_can_be_set_on_their_own() {
    let mut workflow = ExtractUrls::new(CompletionRequest::new(8192, 1024));
    assert_eq!(workflow.set_criteria("Find shops.", 3), ExtractAction::Request);
    assert_eq!(workflow.phase, ExtractPhase::CriteriaDescription);
    assert_eq!(workflow.flow.start_time, 3);
    assert_eq!(workflow.flow.rounds.len(), 2);
    assert_eq!(workflow.flow.rounds[0].state, RoundState::Closed);
    assert_eq!(
        workflow.flow.rounds[1].task,
        "We are extracting URLs from text using the instructions:\nFind shops. Briefly describe the criteria of the URLs to be extracted."
    );
}

#[test]
fn step_without_a_value_where_one_is_needed_ends_the_run() {
    let mut workflow = with_criteria(2);
    assert_eq!(
        workflow.advance(sentinel(), 0),
        ExtractAction::Done(Err(ExtractError::MissingResult))
    );
    assert_eq!(workflow.flow.rounds.len(), 3);
    assert!(workflow.flow.rounds.iter().all(|round| round.state == RoundState::Closed));
}

#[test]
fn reset_forgets_input_and_conversation() {
    let mut workflow = with_criteria(2);
    workflow.config().retry_after_fail_n_times = 7;
    workflow.reset_request();
    assert_eq!(workflow.instruct_prompt.instructions, None);
    assert_eq!(workflow.instruct_prompt.supporting_material, None);
    assert!(workflow.base_req.prompt.messages.is_empty());
    assert_eq!(workflow.base_req.config.retry_after_fail_n_times, 7);
}

#[test]
fn cascade_that_was_changed_under_the_workflow_fails_the_run() {
    let mut workflow = with_criteria(2);
    workflow.flow.rounds.pop();
    assert_eq!(
        workflow.advance(answer("a shop for shoes", ": true or false"), 0),
        ExtractAction::Done(Err(ExtractError::Cascade(CascadeError::NoStepInProgress)))
    );
    assert_eq!(workflow.phase, ExtractPhase::Finished);
    let mut emptied = with_criteria(2);
    emptied.flow.rounds.clear();
    assert_eq!(
        emptied.advance(answer("a shop for shoes", ": true or false"), 0),
        ExtractAction::Done(Err(ExtractError::Cascade(CascadeError::NoRounds)))
    );
    let mut blocked = with_criteria(2);
    blocked.advance(answer("a shop for shoes", ": true or false"), 0);
    blocked.flow.rounds[3].add_guidance_step(&StepConfig::default(), "in the way");
    assert_eq!(
        blocked.advance(answer("https://a.com/", "\n"), 0),
        ExtractAction::Done(Err(ExtractError::OutOfStep))
    );
    assert_eq!(blocked.phase, ExtractPhase::Finished);
    assert_eq!(blocked.candidate, Some("https://a.com/".to_string()));
}

#[test]
fn result_is_rendered_for_a_reader() {
    let mut workflow = with_criteria(2);
    workflow.advance(answer("a shop for shoes", ": true or false"), 1002);
    let result = match workflow.advance(sentinel(), 1042) {
        ExtractAction::Done(Ok(result)) => result,
        other => panic!("{:?}", other),
    };
    let rendered = result.render();
    assert!(rendered.starts_with("\n\x1b[38;5;45m\x1b[1mExtractUrls\x1b[0m\n\n\x1b[38;5;44mRound 1\x1b[0m\n"));
    assert!(rendered.contains("\x1b[38;5;44mRound 2\x1b[0m\nWe are extracting URLs from text using the instructions:\nWhich of these URLs sell shoes? Briefly describe the criteria of the URLs to be extracted.\nCriteria: sells shoes\n"));
    assert!(rendered.contains("\x1b[38;5;44mRound 4\x1b[0m\n"));
    assert!(!rendered.contains("Round 5"));
    assert!(rendered.ends_with(
        "\x1b[38;5;42mcriteria\x1b[0m: \"a shop for shoes\"\n\x1b[38;5;43mduration\x1b[0m: 42ms\n"
    ));
}

#[test]
fn round_runs_all_its_steps_between_requests() {
    let mut request = CompletionRequest::new(8192, 1024);
    let mut round = CascadeRound::new("task");
    round.add_guidance_step(&StepConfig::default(), "one");
    round.add_inference_step(&StepConfig::default());
    round.add_guidance_step(&StepConfig::default(), "three");
    assert_eq!(round.run_all_steps(&mut request, None), Ok(StepAction::Request));
    assert_eq!(round.state, RoundState::Open);
    assert!(round.steps[0].executed);
    assert!(!round.steps[1].executed);
    assert!(!round.steps[2].executed);
    assert_eq!(request.prompt.generation_prefix, Some("one ".to_string()));
    assert_eq!(
        round.run_all_steps(&mut request, None),
        Err(CascadeError::StepInProgress)
    );
    assert_eq!(round.run_all_steps(&mut request, Some(answer("two", "\n"))), Ok(StepAction::Done));
    assert_eq!(round.state, RoundState::Closed);
    assert!(round.steps[2].executed);
    assert_eq!(request.prompt.messages.last().unwrap().content, "one two three");
    assert_eq!(round.run_all_steps(&mut request, None), Err(CascadeError::RoundNotOpen));
    assert_eq!(
        round.run_all_steps(&mut request, Some(answer("late", "\n"))),
        Err(CascadeError::NoStepInProgress)
    );
    let mut empty = CascadeRound::new("task");
    assert_eq!(empty.run_all_steps(&mut request, None), Ok(StepAction::Done));
    assert_eq!(empty.state, RoundState::Closed);
}

#[test]
fn clone_of_a_request_carries_the_conversation_only() {
    let mut request = CompletionRequest::new(8192, 1024);
    request.prompt.add_user_message("hello");
    request.prompt.set_generation_prefix("The");
    request.grammar_string = Some("root ::= x".to_string());
    request.set_base_req_stop_sequences(&Some("a".to_string()), &None);
    request.config.retry_after_fail_n_times = 9;
    request.start(5);
    request.advance(BackendEvent::LogitBias(Ok(())));
    request.advance(BackendEvent::PromptTokens(Ok(10)));
    request.advance(BackendEvent::Completion(Err(CompletionError::ResponseContentEmpty)));
    let copy = request.clone();
    assert_eq!(copy.prompt, request.prompt);
    assert_eq!(copy.grammar_string, request.grammar_string);
    assert_eq!(copy.stop_sequences, request.stop_sequences);
    assert_eq!(copy.config, request.config);
    assert_eq!(copy.start_time, 5);
    assert!(copy.llm_interface_errors.is_empty());
    assert_eq!(copy.retry_count, 0);
    assert_eq!(copy.phase, alith_engine::requests::request::RequestPhase::Idle);
    assert_eq!(request.llm_interface_errors.len(), 1);
}

//! The token budget of a request and the policy that grows it.

use vstd::prelude::*;
use vstd::string::*;
use crate::text::{decimal, decimal_text};

verus! {

/// Percentage by which the output budget grows after a response was cut off.
pub const INCREASE_PERCENT: u64 = 133;

/// Why an output-token budget could not be set or grown.
#[derive(Debug, PartialEq, Eq, Structural, Clone, Copy)]
pub enum RequestTokenLimitError {
    /// The prompt leaves no room for output in the model's context window.
    PromptTokensExceeds { total_prompt_tokens: u64, ctx_size: u64 },
    /// Growing the budget from `initial_state` would pass `limit`.
    TokenLimitIncreaseError { initial_state: u64, limit: u64 },
}

impl RequestTokenLimitError {
    /// The text that `message` renders.
    pub open spec fn message_text(&self) -> Seq<char> {
        match self {
            RequestTokenLimitError::PromptTokensExceeds { total_prompt_tokens, ctx_size } =>
                "total_prompt_tokens ("@ + decimal_text(*total_prompt_tokens as nat)
                    + ") exceeds ctx_size ("@ + decimal_text(*ctx_size as nat) + ")"@,
            RequestTokenLimitError::TokenLimitIncreaseError { initial_state, limit } =>
                "output budget of "@ + decimal_text(*initial_state as nat)
                    + " tokens cannot grow within the limit of "@ + decimal_text(*limit as nat),
        }
    }

    /// A line that says which limit was hit, with the numbers.
    pub fn message(&self) -> (line: String)
        ensures
            line@ == self.message_text(),
    {
        match self {
            RequestTokenLimitError::PromptTokensExceeds { total_prompt_tokens, ctx_size } => {
                let prompt = decimal(*total_prompt_tokens);
                let ctx = decimal(*ctx_size);
                "total_prompt_tokens (".to_owned().concat(prompt.as_str()).concat(
                    ") exceeds ctx_size (",
                ).concat(ctx.as_str()).concat(")")
            },
            RequestTokenLimitError::TokenLimitIncreaseError { initial_state, limit } => {
                let from = decimal(*initial_state);
                let to = decimal(*limit);
                "output budget of ".to_owned().concat(from.as_str()).concat(
                    " tokens cannot grow within the limit of ",
                ).concat(to.as_str())
            },
        }
    }
}

/// Limits and retry policy of one request.
#[derive(Debug, PartialEq, Eq, Structural, Clone, Copy)]
pub struct RequestConfig {
    /// Tokens the model can attend to, prompt and output together.
    pub model_ctx_size: u64,
    /// Most tokens the backend will generate in one response.
    pub inference_ctx_size: u64,
    /// Output tokens the caller asks for; `None` asks for all that fit.
    pub requested_response_tokens: Option<u64>,
    /// The output budget in force, once a prompt has been measured.
    pub actual_request_tokens: Option<u64>,
    /// Attempts the engine makes before it gives up.
    pub retry_after_fail_n_times: u8,
    /// Whether a cut-off or unterminated response grows the budget before the retry.
    pub increase_limit_on_fail: bool,
    /// Whether the backend may reuse prompt state it has already processed.
    pub cache_prompt: bool,
}

/// Output tokens that fit after a prompt of `total_prompt_tokens`.
pub open spec fn available_tokens(config: RequestConfig, total_prompt_tokens: u64) -> int {
    let room = config.model_ctx_size - total_prompt_tokens;
    if room <= config.inference_ctx_size {
        room
    } else {
        config.inference_ctx_size as int
    }
}

/// The budget a request gets: what was asked for, cut down to what fits.
pub open spec fn budget_for(config: RequestConfig, total_prompt_tokens: u64) -> int {
    let available = available_tokens(config, total_prompt_tokens);
    match config.requested_response_tokens {
        Some(requested) => if requested <= available {
            requested as int
        } else {
            available
        },
        None => available,
    }
}

/// The budget that follows `current` when it grows: larger by a third, and by one token at least.
pub open spec fn grown_budget(current: u64) -> int {
    let scaled = (current * INCREASE_PERCENT) / 100;
    if scaled > current {
        scaled
    } else {
        current + 1
    }
}

impl RequestConfig {
    /// The budget in force never passes the inference ceiling.
    pub open spec fn wf(&self) -> bool {
        match self.actual_request_tokens {
            Some(tokens) => tokens <= self.inference_ctx_size,
            None => true,
        }
    }

    /// A configuration with no budget set yet, three attempts, and growth on failure.
    pub fn new(model_ctx_size: u64, inference_ctx_size: u64) -> (config: RequestConfig)
        ensures
            config == (RequestConfig {
                model_ctx_size,
                inference_ctx_size,
                requested_response_tokens: None,
                actual_request_tokens: None,
                retry_after_fail_n_times: 3,
                increase_limit_on_fail: true,
                cache_prompt: true,
            }),
            config.wf(),
    {
        RequestConfig {
            model_ctx_size,
            inference_ctx_size,
            requested_response_tokens: None,
            actual_request_tokens: None,
            retry_after_fail_n_times: 3,
            increase_limit_on_fail: true,
            cache_prompt: true,
        }
    }

    /// Sets the output budget for a prompt of `total_prompt_tokens`.
    ///
    /// Fails, and changes nothing, when the prompt fills the context window.
    pub fn set_max_tokens_for_request(&mut self, total_prompt_tokens: u64) -> (result: Result<
        (),
        RequestTokenLimitError,
    >)
        ensures
            total_prompt_tokens >= old(self).model_ctx_size <==> result is Err,
            result is Err ==> *final(self) == *old(self) && result == Err::<
                (),
                RequestTokenLimitError,
            >(
                RequestTokenLimitError::PromptTokensExceeds {
                    total_prompt_tokens,
                    ctx_size: old(self).model_ctx_size,
                },
            ),
            result is Ok ==> *final(self) == (RequestConfig {
                actual_request_tokens: Some(budget_for(*old(self), total_prompt_tokens) as u64),
                ..*old(self)
            }) && final(self).wf(),
    {
        if total_prompt_tokens >= self.model_ctx_size {
            return Err(
                RequestTokenLimitError::PromptTokensExceeds {
                    total_prompt_tokens,
                    ctx_size: self.model_ctx_size,
                },
            );
        }
        let room: u64 = self.model_ctx_size - total_prompt_tokens;
        let available: u64 = if room <= self.inference_ctx_size {
            room
        } else {
            self.inference_ctx_size
        };
        let budget: u64 = match self.requested_response_tokens {
            Some(requested) => if requested <= available {
                requested
            } else {
                available
            },
            None => available,
        };
        self.actual_request_tokens = Some(budget);
        Ok(())
    }

    /// Grows the output budget after a response ran out of room.
    ///
    /// A budget not yet set is set first. The grown budget becomes both the
    /// request and the budget in force. Growth that would pass what fits
    /// after the prompt is refused, and the configuration keeps the budget
    /// it had.
    pub fn increase_token_limit(&mut self, total_prompt_tokens: u64) -> (result: Result<
        (),
        RequestTokenLimitError,
    >)
        ensures
            old(self).wf() ==> final(self).wf(),
            result == increase_outcome(*old(self), total_prompt_tokens),
            *final(self) == increased(*old(self), total_prompt_tokens),
    {
        let current: u64 = match self.actual_request_tokens {
            Some(tokens) => tokens,
            None => {
                match self.set_max_tokens_for_request(total_prompt_tokens) {
                    Err(e) => {
                        return Err(e);
                    },
                    Ok(()) => {},
                }
                match self.actual_request_tokens {
                    Some(tokens) => tokens,
                    None => 0,
                }
            },
        };
        if total_prompt_tokens >= self.model_ctx_size {
            return Err(
                RequestTokenLimitError::PromptTokensExceeds {
                    total_prompt_tokens,
                    ctx_size: self.model_ctx_size,
                },
            );
        }
        let room: u64 = self.model_ctx_size - total_prompt_tokens;
        let limit: u64 = if room <= self.inference_ctx_size {
            room
        } else {
            self.inference_ctx_size
        };
        let scaled: u128 = (current as u128 * INCREASE_PERCENT as u128) / 100;
        let grown: u128 = if scaled > current as u128 {
            scaled
        } else {
            current as u128 + 1
        };
        if grown > limit as u128 {
            return Err(RequestTokenLimitError::TokenLimitIncreaseError { initial_state: current, limit });
        }
        self.requested_response_tokens = Some(grown as u64);
        self.actual_request_tokens = Some(grown as u64);
        Ok(())
    }
}

/// The budget that growth starts from: the one in force, or the one a first
/// measurement of the prompt would set.
pub open spec fn growth_base(config: RequestConfig, total_prompt_tokens: u64) -> int {
    match config.actual_request_tokens {
        Some(tokens) => tokens as int,
        None => budget_for(config, total_prompt_tokens),
    }
}

/// What `increase_token_limit` answers.
pub open spec fn increase_outcome(config: RequestConfig, total_prompt_tokens: u64) -> Result<
    (),
    RequestTokenLimitError,
> {
    let base = growth_base(config, total_prompt_tokens);
    let limit = available_tokens(config, total_prompt_tokens);
    if total_prompt_tokens >= config.model_ctx_size {
        Err(
            RequestTokenLimitError::PromptTokensExceeds {
                total_prompt_tokens,
                ctx_size: config.model_ctx_size,
            },
        )
    } else if grown_budget(base as u64) > limit {
        Err(
            RequestTokenLimitError::TokenLimitIncreaseError {
                initial_state: base as u64,
                limit: limit as u64,
            },
        )
    } else {
        Ok(())
    }
}

/// The configuration that `increase_token_limit` leaves.
pub open spec fn increased(config: RequestConfig, total_prompt_tokens: u64) -> RequestConfig {
    let base = growth_base(config, total_prompt_tokens);
    if total_prompt_tokens >= config.model_ctx_size {
        config
    } else if increase_outcome(config, total_prompt_tokens) is Err {
        RequestConfig { actual_request_tokens: Some(base as u64), ..config }
    } else {
        RequestConfig {
            requested_response_tokens: Some(grown_budget(base as u64) as u64),
            actual_request_tokens: Some(grown_budget(base as u64) as u64),
            ..config
        }
    }
}

} // verus!

//! The plain OpenRouter chat client of the infrastructure layer: its errors,
//! what a response status means, and its retry schedule.

use vstd::prelude::*;
use vstd::arithmetic::power2::pow2;
use crate::http::{status_text, status_text_of};
use crate::text::owned;

verus! {

/// Errors of the plain chat client.
#[derive(Debug, Clone)]
pub enum LlmClientError {
    /// The request failed, with the reason
    RequestFailed(String),
    /// The API answered 429
    RateLimitExceeded,
    /// The API answered 503
    ModelUnavailable,
    /// The response could not be read
    InvalidResponse,
}

/// The message of a client error.
pub open spec fn client_error_text(e: LlmClientError) -> Seq<char> {
    match e {
        LlmClientError::RequestFailed(m) => "Request failed: "@ + m@,
        LlmClientError::RateLimitExceeded => "Rate limit exceeded"@,
        LlmClientError::ModelUnavailable => "Model unavailable"@,
        LlmClientError::InvalidResponse => "Invalid response format"@,
    }
}

impl LlmClientError {
    /// The message of the error.
    pub fn message(&self) -> (r: String)
        ensures
            r@ == client_error_text(*self),
    {
        match self {
            LlmClientError::RequestFailed(m) => crate::http::prefixed("Request failed: ", m.as_str()),
            LlmClientError::RateLimitExceeded => owned("Rate limit exceeded"),
            LlmClientError::ModelUnavailable => owned("Model unavailable"),
            LlmClientError::InvalidResponse => owned("Invalid response format"),
        }
    }
}

/// What a response status means: 200 is a usable response, 429 a rate
/// limit, 503 an unavailable model, and any other status a failed request
/// named by the status text.
pub fn status_outcome(code: u16) -> (r: Result<(), LlmClientError>)
    requires
        100 <= code <= 999,
    ensures
        code == 200 <==> r is Ok,
        code == 429 ==> r matches Err(LlmClientError::RateLimitExceeded),
        code == 503 ==> r matches Err(LlmClientError::ModelUnavailable),
        code != 200 && code != 429 && code != 503 ==> (r matches Err(LlmClientError::RequestFailed(m))
            && m@ == status_text_of(code)),
{
    if code == 429 {
        Err(LlmClientError::RateLimitExceeded)
    } else if code == 503 {
        Err(LlmClientError::ModelUnavailable)
    } else if code == 200 {
        Ok(())
    } else {
        Err(LlmClientError::RequestFailed(status_text(code)))
    }
}

/// After a rate limit, with `attempt` rate limits seen before it: give up
/// (`None`) once `retry_count` of them are reached, else wait
/// `base_delay_secs * 2^attempt` seconds, the attempt counted after this limit.
pub fn after_rate_limit(attempt: u32, retry_count: u32, base_delay_secs: u64) -> (r: Option<u64>)
    requires
        attempt < retry_count,
        attempt < 63,
        base_delay_secs as nat * pow2((attempt + 1) as nat) <= u64::MAX,
    ensures
        attempt + 1 >= retry_count ==> r.is_none(),
        attempt + 1 < retry_count ==> r == Some((base_delay_secs as nat * pow2((attempt + 1) as nat)) as u64),
{
    let next = attempt + 1;
    if next >= retry_count {
        return None;
    }
    let mut factor: u64 = 1;
    let mut i: u32 = 0;
    proof {
        vstd::arithmetic::power2::lemma_pow2_pos(next as nat);
        assert(pow2(0) == 1) by {
            vstd::arithmetic::power2::lemma2_to64();
        }
    }
    while i < next
        invariant
            i <= next <= 63,
            factor as nat == pow2(i as nat),
            base_delay_secs as nat * pow2(next as nat) <= u64::MAX,
        decreases next - i,
    {
        proof {
            vstd::arithmetic::power2::lemma_pow2_unfold((i + 1) as nat);
            vstd::arithmetic::power2::lemma2_to64_rest();
            assert(factor * 2 == pow2((i + 1) as nat));
            if i + 1 < 63 {
                vstd::arithmetic::power2::lemma_pow2_strictly_increases((i + 1) as nat, 63);
            }
        }
        factor = factor * 2;
        i = i + 1;
    }
    proof {
        vstd::arithmetic::power2::lemma_pow2_pos(next as nat);
        assert(base_delay_secs as nat * (factor as nat) <= u64::MAX);
    }
    Some(base_delay_secs * factor)
}

} // verus!

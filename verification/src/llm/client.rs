//! Decisions of the OpenRouter client that do not depend on the network:
//! which errors are worth another model, how long to wait before a retry,
//! what an error response means, and how many tokens messages take.

use vstd::prelude::*;
use crate::backoff::{backoff_base, backoff_base_ms, jitter_bound, lemma_backoff_base_bounds, rand_jitter};
use crate::http::{prefixed, status_text, status_text_of};
use crate::llm::types::{role_text, Message};
use crate::json::{find_member, json_get, json_u64, parse_json, parsed_json, Json};
use crate::text::{byte_len, contains_text, lowercase_of, owned, push_str, str_contains, to_lowercase, utf8_len};

verus! {

/// Maximum number of attempts of a rate-limited request.
pub const MAX_RETRY_ATTEMPTS: u32 = 3;

/// Default embedding model (cost-effective with good quality).
pub const DEFAULT_EMBEDDING_MODEL: &'static str = "openai/text-embedding-3-small";

/// Errors of the language-model client.
#[derive(Debug, Clone)]
pub enum LlmError {
    /// The API refused or failed the request, with its explanation
    Llm(String),
    /// The API asked to wait this many seconds
    RateLimited(u64),
    /// The request could not be sent or its response not received
    Network(String),
    /// No model could serve the request
    NoSuitableModel(String),
    /// An embedding could not be produced
    EmbeddingFailed(String),
}

// ---------------------------------------------------------------------------
// Model errors

/// The phrases that mark an error as specific to a model.
pub open spec fn model_error_patterns() -> Seq<Seq<char>> {
    seq![
        "model not found"@,
        "unavailable"@,
        "not available"@,
        "no available provider"@,
        "overloaded"@,
        "capacity"@,
    ]
}

/// Whether an error message, lower-cased, names one of the model error phrases.
pub open spec fn model_error(msg: Seq<char>) -> bool {
    exists|i: int| 0 <= i < model_error_patterns().len() && contains_text(
        lowercase_of(msg),
        #[trigger] model_error_patterns()[i],
    )
}

/// Check if an error message indicates a model-specific error.
pub fn is_model_error(msg: &str) -> (r: bool)
    ensures
        r == model_error(msg@),
{
    let lower = to_lowercase(msg);
    let l = lower.as_str();
    let ghost pats = model_error_patterns();
    if str_contains(l, "model not found") {
        assert(contains_text(lowercase_of(msg@), pats[0]));
        return true;
    }
    if str_contains(l, "unavailable") {
        assert(contains_text(lowercase_of(msg@), pats[1]));
        return true;
    }
    if str_contains(l, "not available") {
        assert(contains_text(lowercase_of(msg@), pats[2]));
        return true;
    }
    if str_contains(l, "no available provider") {
        assert(contains_text(lowercase_of(msg@), pats[3]));
        return true;
    }
    if str_contains(l, "overloaded") {
        assert(contains_text(lowercase_of(msg@), pats[4]));
        return true;
    }
    if str_contains(l, "capacity") {
        assert(contains_text(lowercase_of(msg@), pats[5]));
        return true;
    }
    assert forall|i: int| 0 <= i < pats.len() implies !contains_text(lowercase_of(msg@), #[trigger] pats[i]) by {
        if i == 0 {} else if i == 1 {} else if i == 2 {} else if i == 3 {} else if i == 4 {} else {}
    }
    false
}

/// Which messages are model errors: exactly those whose lower case mentions
/// a model not found, an unavailable or not available model, no available
/// provider, an overload, or capacity.
pub proof fn lemma_model_error_phrases(msg: Seq<char>)
    ensures
        model_error(msg) <==> {
            let l = lowercase_of(msg);
            ||| contains_text(l, "model not found"@)
            ||| contains_text(l, "unavailable"@)
            ||| contains_text(l, "not available"@)
            ||| contains_text(l, "no available provider"@)
            ||| contains_text(l, "overloaded"@)
            ||| contains_text(l, "capacity"@)
        },
{
    let l = lowercase_of(msg);
    let pats = model_error_patterns();
    if contains_text(l, "model not found"@) {
        assert(contains_text(l, pats[0]));
    }
    if contains_text(l, "unavailable"@) {
        assert(contains_text(l, pats[1]));
    }
    if contains_text(l, "not available"@) {
        assert(contains_text(l, pats[2]));
    }
    if contains_text(l, "no available provider"@) {
        assert(contains_text(l, pats[3]));
    }
    if contains_text(l, "overloaded"@) {
        assert(contains_text(l, pats[4]));
    }
    if contains_text(l, "capacity"@) {
        assert(contains_text(l, pats[5]));
    }
    if model_error(msg) {
        let i = choose|i: int| 0 <= i < pats.len() && contains_text(l, #[trigger] pats[i]);
        if i == 0 {} else if i == 1 {} else if i == 2 {} else if i == 3 {} else if i == 4 {} else {}
    }
}

/// When a chat goes on to the next model: after a rate limit, and after an
/// API error whose message names a model error (as above), whatever else it
/// says; never after a network failure, a missing model or a failed
/// embedding.
pub proof fn lemma_next_model_after(e: LlmError)
    ensures
        e is RateLimited ==> try_next_model(e),
        e matches LlmError::Llm(m) ==> (try_next_model(e) <==> {
            let l = lowercase_of(m@);
            ||| contains_text(l, "model not found"@)
            ||| contains_text(l, "unavailable"@)
            ||| contains_text(l, "not available"@)
            ||| contains_text(l, "no available provider"@)
            ||| contains_text(l, "overloaded"@)
            ||| contains_text(l, "capacity"@)
        }),
        (e is Network || e is NoSuitableModel || e is EmbeddingFailed) ==> !try_next_model(e),
{
    if let LlmError::Llm(m) = e {
        lemma_model_error_phrases(m@);
    }
}

// ---------------------------------------------------------------------------
// Backoff

/// The delay before a retry, before jitter: the exponential base or the wait
/// the API suggested (in seconds), whichever is longer.
pub open spec fn llm_delay(attempt: u32, suggested_wait: u64) -> nat {
    let w = suggested_wait as nat * 1000;
    if backoff_base(attempt) >= w { backoff_base(attempt) } else { w }
}

/// The delay with a jitter source value reduced below a tenth of it.
pub open spec fn llm_backoff(attempt: u32, suggested_wait: u64, jitter: nat) -> nat {
    llm_delay(attempt, suggested_wait) + jitter % jitter_bound(llm_delay(attempt, suggested_wait))
}

/// The backoff before retry `attempt` with a given jitter source value.
pub fn llm_backoff_with(attempt: u32, suggested_wait: u64, jitter: u64) -> (r: u64)
    requires
        1 <= attempt <= 55,
        suggested_wait as nat * 1000 <= u64::MAX,
        llm_backoff(attempt, suggested_wait, jitter as nat) <= u64::MAX,
    ensures
        r == llm_backoff(attempt, suggested_wait, jitter as nat),
{
    let base = backoff_base_ms(attempt);
    let max_wait = suggested_wait * 1000;
    let delay = if base >= max_wait { base } else { max_wait };
    let bound = if delay / 10 == 0 { 1 } else { delay / 10 };
    delay + jitter % bound
}

/// Calculate the backoff delay with jitter before retry `attempt`: at least
/// the exponential base and the suggested wait, plus a clock-derived jitter
/// below both a tenth of that and 1000.
pub fn calculate_backoff(attempt: u32, suggested_wait: u64) -> (r: u64)
    requires
        1 <= attempt <= 55,
        llm_delay(attempt, suggested_wait) + jitter_bound(llm_delay(attempt, suggested_wait)) <= u64::MAX,
    ensures
        exists|j: nat| j < 1000 && r == #[trigger] llm_backoff(attempt, suggested_wait, j),
        llm_delay(attempt, suggested_wait) <= r < llm_delay(attempt, suggested_wait) + jitter_bound(
            llm_delay(attempt, suggested_wait),
        ),
{
    let j = rand_jitter();
    proof {
        lemma_backoff_base_bounds(attempt);
        let b = jitter_bound(llm_delay(attempt, suggested_wait));
        let jn = j as nat;
        assert(jn % b < b) by (nonlinear_arith)
            requires
                b > 0,
        ;
    }
    let r = llm_backoff_with(attempt, suggested_wait, j);
    assert(r == llm_backoff(attempt, suggested_wait, j as nat));
    r
}

// ---------------------------------------------------------------------------
// Retry-after hints

/// The retry-after hint of a parsed error body: the `retry_after` number of
/// the object, else that of its `error` member, else none.
pub open spec fn retry_after_of(doc: Option<Json>) -> Option<u64> {
    match json_u64(json_get(doc, "retry_after"@)) {
        Some(n) => Some(n),
        None => json_u64(json_get(json_get(doc, "error"@), "retry_after"@)),
    }
}

/// The member of a document under a key, where the document is an object.
fn get_member<'a>(doc: Option<&'a Json>, key: &str) -> (r: Option<&'a Json>)
    ensures
        match json_get(match doc { Some(j) => Some(*j), None => None }, key@) {
            Some(j) => r is Some && *r->0 == j,
            None => r is None,
        },
{
    match doc {
        Some(Json::Object(members)) => find_member(members, key),
        _ => None,
    }
}

/// The value of a document where it is a `u64` number.
fn as_u64(doc: Option<&Json>) -> (r: Option<u64>)
    ensures
        r == json_u64(match doc { Some(j) => Some(*j), None => None }),
{
    match doc {
        Some(Json::Number(Some(n))) => Some(*n),
        _ => None,
    }
}

/// The retry-after hint of a parsed error body: the `retry_after` number of
/// the JSON object, else that of its `error` member; `None` when there is
/// no document or it names no such number.
pub fn retry_after_in(doc: &Option<Json>) -> (r: Option<u64>)
    ensures
        r == retry_after_of(*doc),
{
    let top = match doc {
        Some(j) => Some(j),
        None => None,
    };
    match as_u64(get_member(top, "retry_after")) {
        Some(n) => Some(n),
        None => as_u64(get_member(get_member(top, "error"), "retry_after")),
    }
}

/// Extract the retry-after value from an error response body: the
/// `retry_after` number of the JSON object, else that of its `error`
/// member; `None` when the body is not JSON or names no such number.
pub fn extract_retry_after(body: &str) -> (r: Option<u64>)
    ensures
        r == retry_after_of(parsed_json(body@)),
{
    let doc = parse_json(body);
    retry_after_in(&doc)
}

// ---------------------------------------------------------------------------
// Error responses

/// The kinds of client errors, for contracts.
#[derive(Debug, Clone, Copy, PartialEq, Eq, Structural)]
pub enum LlmErrorKind {
    Llm,
    RateLimited,
    Network,
    NoSuitableModel,
    EmbeddingFailed,
}

/// The kind, message and wait of a client error (an empty message for a
/// rate limit, a zero wait for the others).
pub open spec fn llm_error_parts(e: LlmError) -> (LlmErrorKind, Seq<char>, u64) {
    match e {
        LlmError::Llm(m) => (LlmErrorKind::Llm, m@, 0),
        LlmError::RateLimited(w) => (LlmErrorKind::RateLimited, Seq::empty(), w),
        LlmError::Network(m) => (LlmErrorKind::Network, m@, 0),
        LlmError::NoSuitableModel(m) => (LlmErrorKind::NoSuitableModel, m@, 0),
        LlmError::EmbeddingFailed(m) => (LlmErrorKind::EmbeddingFailed, m@, 0),
    }
}

/// The error of an unsuccessful status with its body; a rate limit waits
/// the given hint, 60 seconds when there is none.
pub open spec fn llm_status_error(code: u16, body: Seq<char>, hint: Option<u64>) -> (LlmErrorKind, Seq<char>, u64) {
    if code == 401 {
        (
            LlmErrorKind::Llm,
            "Unauthorized: Invalid API key. Set DEMIARCH_API_KEY or OPENROUTER_API_KEY environment variable."@,
            0,
        )
    } else if code == 429 {
        (LlmErrorKind::RateLimited, Seq::empty(), match hint { Some(w) => w, None => 60 })
    } else if code == 400 {
        (LlmErrorKind::Llm, "Bad request: "@ + body, 0)
    } else if code == 402 {
        (LlmErrorKind::Llm, "Payment required: Insufficient credits on OpenRouter account"@, 0)
    } else if code == 403 {
        (LlmErrorKind::Llm, "Forbidden: "@ + body, 0)
    } else if code == 404 {
        (LlmErrorKind::Llm, "Model not found or endpoint unavailable: "@ + body, 0)
    } else if 500 <= code <= 599 {
        (LlmErrorKind::Llm, "Server error ("@ + status_text_of(code) + "): "@ + body, 0)
    } else {
        (LlmErrorKind::Llm, "HTTP error "@ + status_text_of(code) + ": "@ + body, 0)
    }
}

/// Handle an error response from the API: the error of its status code (a
/// code that a `StatusCode` can hold) and its body. A rate limit waits what
/// the body's retry-after hint says.
pub fn llm_error_for_status(code: u16, body: &str) -> (r: LlmError)
    requires
        100 <= code <= 999,
    ensures
        llm_error_parts(r) == llm_status_error(code, body@, retry_after_of(parsed_json(body@))),
{
    if code == 401 {
        let r = LlmError::Llm(
            owned(
                "Unauthorized: Invalid API key. Set DEMIARCH_API_KEY or OPENROUTER_API_KEY environment variable.",
            ),
        );
        r
    } else if code == 429 {
        let hint = extract_retry_after(body);
        let wait = match hint {
            Some(w) => w,
            None => 60,
        };
        LlmError::RateLimited(wait)
    } else {
        let r = if code == 400 {
            LlmError::Llm(prefixed("Bad request: ", body))
        } else if code == 402 {
            LlmError::Llm(owned("Payment required: Insufficient credits on OpenRouter account"))
        } else if code == 403 {
            LlmError::Llm(prefixed("Forbidden: ", body))
        } else if code == 404 {
            LlmError::Llm(prefixed("Model not found or endpoint unavailable: ", body))
        } else if 500 <= code && code <= 599 {
            let mut m = prefixed("Server error (", status_text(code).as_str());
            push_str(&mut m, "): ");
            push_str(&mut m, body);
            assert(m@ =~= "Server error ("@ + status_text_of(code) + "): "@ + body@);
            LlmError::Llm(m)
        } else {
            let mut m = prefixed("HTTP error ", status_text(code).as_str());
            push_str(&mut m, ": ");
            push_str(&mut m, body);
            assert(m@ =~= "HTTP error "@ + status_text_of(code) + ": "@ + body@);
            LlmError::Llm(m)
        };
        r
    }
}

// ---------------------------------------------------------------------------
// Retries and fallback

/// What follows a failed attempt of a chat request.
#[derive(Debug)]
pub enum LlmRetryStep {
    /// Return the error
    Fail(LlmError),
    /// Wait `delay_ms` and try again
    Retry { delay_ms: u64 },
}

/// Decide what follows the failure of attempt number `attempts` (counted
/// from 1): a rate limit is retried after its backoff while fewer than
/// `MAX_RETRY_ATTEMPTS` attempts were made; any other outcome fails.
pub fn after_failed_request(attempts: u32, error: LlmError) -> (r: LlmRetryStep)
    requires
        1 <= attempts,
        error matches LlmError::RateLimited(w) ==> (attempts < MAX_RETRY_ATTEMPTS ==> llm_delay(attempts, w)
            + jitter_bound(llm_delay(attempts, w)) <= u64::MAX),
    ensures
        match error {
            LlmError::RateLimited(w) => if attempts < MAX_RETRY_ATTEMPTS {
                r matches LlmRetryStep::Retry { delay_ms } && llm_delay(attempts, w) <= delay_ms
                    < llm_delay(attempts, w) + jitter_bound(llm_delay(attempts, w))
            } else {
                r == LlmRetryStep::Fail(error)
            },
            _ => r == LlmRetryStep::Fail(error),
        },
{
    match error {
        LlmError::RateLimited(w) => {
            if attempts < MAX_RETRY_ATTEMPTS {
                LlmRetryStep::Retry { delay_ms: calculate_backoff(attempts, w) }
            } else {
                LlmRetryStep::Fail(LlmError::RateLimited(w))
            }
        },
        other => LlmRetryStep::Fail(other),
    }
}

/// Whether a failure of one model lets the next model be tried: a rate
/// limit, or an error message that names a model error.
pub open spec fn try_next_model(e: LlmError) -> bool {
    match e {
        LlmError::RateLimited(_) => true,
        LlmError::Llm(m) => model_error(m@),
        _ => false,
    }
}

/// Decide whether to go on to the next model after `error`.
pub fn should_try_next_model(error: &LlmError) -> (r: bool)
    ensures
        r == try_next_model(*error),
{
    match error {
        LlmError::RateLimited(_) => true,
        LlmError::Llm(m) => is_model_error(m.as_str()),
        _ => false,
    }
}

/// The models of a request with fallback, in order: the default model, then
/// the fallback models.
pub fn models_to_try(default_model: &str, fallback_models: &Vec<String>) -> (r: Vec<String>)
    ensures
        r@.map_values(|m: String| m@) == seq![default_model@] + fallback_models@.map_values(|m: String| m@),
{
    let mut out: Vec<String> = Vec::new();
    out.push(owned(default_model));
    let mut i: usize = 0;
    while i < fallback_models.len()
        invariant
            i <= fallback_models@.len(),
            out@.map_values(|m: String| m@) == seq![default_model@] + fallback_models@.take(i as int).map_values(
                |m: String| m@,
            ),
        decreases fallback_models@.len() - i,
    {
        let ghost before = out@;
        out.push(owned(fallback_models[i].as_str()));
        proof {
            assert(fallback_models@.take(i + 1) =~= fallback_models@.take(i as int).push(fallback_models@[i as int]));
            assert(out@.map_values(|m: String| m@) =~= before.map_values(|m: String| m@).push(fallback_models@[i as int]@));
            assert(fallback_models@.take(i + 1).map_values(|m: String| m@) =~= fallback_models@.take(i as int).map_values(
                |m: String| m@,
            ).push(fallback_models@[i as int]@));
        }
        i = i + 1;
    }
    assert(fallback_models@.take(fallback_models@.len() as int) =~= fallback_models@);
    out
}

/// The error when every model failed: the last model's error, or a
/// no-suitable-model error when none was tried.
pub fn fallbacks_exhausted(last: Option<LlmError>) -> (r: LlmError)
    ensures
        match last {
            Some(e) => r == e,
            None => r matches LlmError::NoSuitableModel(m) && m@ == "All models failed"@,
        },
{
    match last {
        Some(e) => e,
        None => LlmError::NoSuitableModel(owned("All models failed")),
    }
}

/// The embedding model of a request: the given one, else the default.
pub fn embedding_model<'a>(model: Option<&'a str>) -> (r: &'a str)
    ensures
        r@ == match model {
            Some(m) => m@,
            None => DEFAULT_EMBEDDING_MODEL@,
        },
{
    match model {
        Some(m) => m,
        None => DEFAULT_EMBEDDING_MODEL,
    }
}

// ---------------------------------------------------------------------------
// Token estimate

/// The characters a message counts for: its content's bytes, its role's
/// name and four for the formatting.
pub open spec fn message_weight(m: Message) -> nat {
    utf8_len(m.content@) + role_text(m.role).len() + 4
}

/// The total weight of messages.
pub open spec fn messages_weight(ms: Seq<Message>) -> nat
    decreases ms.len(),
{
    if ms.len() == 0 {
        0
    } else {
        messages_weight(ms.drop_last()) + message_weight(ms.last())
    }
}

/// Count tokens in messages (approximate): about four characters per token.
pub fn estimate_tokens(messages: &Vec<Message>) -> (r: usize)
    requires
        forall|i: int| 0 <= i < messages@.len() ==> 4 * (#[trigger] messages@[i]).content@.len() <= usize::MAX,
        messages_weight(messages@) <= usize::MAX,
    ensures
        r == messages_weight(messages@) / 4,
{
    let mut total: usize = 0;
    let mut i: usize = 0;
    while i < messages.len()
        invariant
            i <= messages@.len(),
            forall|k: int| 0 <= k < messages@.len() ==> 4 * (#[trigger] messages@[k]).content@.len() <= usize::MAX,
            messages_weight(messages@) <= usize::MAX,
            total == messages_weight(messages@.take(i as int)),
        decreases messages@.len() - i,
    {
        let m = &messages[i];
        proof {
            assert(messages@.take(i + 1).drop_last() =~= messages@.take(i as int));
            lemma_messages_weight_prefix(messages@, i + 1);
        }
        let w = byte_len(m.content.as_str()) + m.role.as_str().unicode_len() + 4;
        total = total + w;
        i = i + 1;
    }
    assert(messages@.take(messages@.len() as int) =~= messages@);
    total / 4
}

proof fn lemma_messages_weight_prefix(ms: Seq<Message>, n: int)
    requires
        0 <= n <= ms.len(),
    ensures
        messages_weight(ms.take(n)) <= messages_weight(ms),
    decreases ms.len() - n,
{
    if n < ms.len() {
        lemma_messages_weight_prefix(ms, n + 1);
        assert(ms.take(n + 1).drop_last() =~= ms.take(n));
    } else {
        assert(ms.take(n) =~= ms);
    }
}

} // verus!

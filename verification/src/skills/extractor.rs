//! Text handling of skill extraction: the extraction context, the prompt
//! sent to the model, the JSON found in its answer, the language of an
//! artifact, and the skill made of an extracted description.

use vstd::prelude::*;
use crate::skills::types::{
    LearnedSkill, PatternType, PatternVariable, SkillCategory, SkillConfidence, SkillMetadata, SkillPattern,
    SkillSource,
};
use crate::text::{
    chars_of, contains_text, lemma_first_occurrence_bounds, lemma_last_position_bounds, find_first, first_occurrence, last_position, lowercase_of, lemma_utf8_len_prefix,
    owned, push_str, rfind_char, str_contains, str_eq, string_of, string_of_range, to_lowercase, trim_chars,
    trim_text, utf8_len, char_width,
};

verus! {

/// Maximum number of skills kept from a single result.
pub const MAX_SKILLS_PER_RESULT: usize = 3;

/// Maximum length, in bytes, of artifact content quoted in a prompt.
pub const MAX_PROMPT_CONTENT: usize = 4000;

// ---------------------------------------------------------------------------
// Context

/// Context for skill extraction.
#[derive(Debug, Clone)]
pub struct ExtractionContext {
    /// Project ID where the work occurred
    pub project_id: Option<String>,
    /// Feature ID that was implemented
    pub feature_id: Option<String>,
    /// Type of agent that produced the result
    pub agent_type: Option<String>,
    /// Description of the task
    pub task_description: Option<String>,
}

impl Default for ExtractionContext {
    /// A context that records nothing.
    fn default() -> (r: Self)
        ensures
            r.project_id.is_none() && r.feature_id.is_none(),
            r.agent_type.is_none() && r.task_description.is_none(),
    {
        ExtractionContext { project_id: None, feature_id: None, agent_type: None, task_description: None }
    }
}

impl ExtractionContext {
    /// Create a new extraction context that records nothing.
    pub fn new() -> (r: ExtractionContext)
        ensures
            r.project_id.is_none() && r.feature_id.is_none(),
            r.agent_type.is_none() && r.task_description.is_none(),
    {
        ExtractionContext::default()
    }

    /// Set the project ID.
    pub fn with_project(self, project_id: &str) -> (r: ExtractionContext)
        ensures
            r.project_id matches Some(p) && p@ == project_id@,
            r.feature_id == self.feature_id && r.agent_type == self.agent_type,
            r.task_description == self.task_description,
    {
        ExtractionContext { project_id: Some(owned(project_id)), ..self }
    }

    /// Set the feature ID.
    pub fn with_feature(self, feature_id: &str) -> (r: ExtractionContext)
        ensures
            r.feature_id matches Some(p) && p@ == feature_id@,
            r.project_id == self.project_id && r.agent_type == self.agent_type,
            r.task_description == self.task_description,
    {
        ExtractionContext { feature_id: Some(owned(feature_id)), ..self }
    }

    /// Set the agent type.
    pub fn with_agent(self, agent_type: &str) -> (r: ExtractionContext)
        ensures
            r.agent_type matches Some(p) && p@ == agent_type@,
            r.project_id == self.project_id && r.feature_id == self.feature_id,
            r.task_description == self.task_description,
    {
        ExtractionContext { agent_type: Some(owned(agent_type)), ..self }
    }

    /// Set the task description.
    pub fn with_task(self, task: &str) -> (r: ExtractionContext)
        ensures
            r.task_description matches Some(p) && p@ == task@,
            r.project_id == self.project_id && r.feature_id == self.feature_id,
            r.agent_type == self.agent_type,
    {
        ExtractionContext { task_description: Some(owned(task)), ..self }
    }
}

// ---------------------------------------------------------------------------
// Truncation

/// Whether `b` bytes end a whole number of characters of `s`.
pub open spec fn is_char_boundary(s: Seq<char>, b: nat) -> bool {
    exists|k: int| 0 <= k <= s.len() && utf8_len(#[trigger] s.take(k)) == b
}

/// The number of characters in the first `b` bytes of `s`.
pub open spec fn chars_in_bytes(s: Seq<char>, b: nat) -> int {
    choose|k: int| 0 <= k <= s.len() && utf8_len(#[trigger] s.take(k)) == b
}

/// Content cut to `max_len` bytes: unchanged when it fits, else its first
/// `max_len` bytes followed by a truncation note.
pub open spec fn truncated_content(c: Seq<char>, max_len: nat) -> Seq<char> {
    if utf8_len(c) <= max_len {
        c
    } else {
        c.take(chars_in_bytes(c, max_len)) + "...\n[Content truncated]"@
    }
}

/// Truncate content to a maximum length in bytes; content longer than that
/// must be cut at a character boundary.
pub fn truncate_content(content: &str, max_len: usize) -> (r: String)
    requires
        utf8_len(content@) <= max_len || is_char_boundary(content@, max_len as nat),
    ensures
        r@ == truncated_content(content@, max_len as nat),
{
    let v = chars_of(content);
    let mut n: usize = 0;
    let mut k: usize = 0;
    let mut fits = true;
    while k < v.len() && fits
        invariant
            k <= v@.len(),
            v@ == content@,
            n == utf8_len(v@.take(k as int)),
            n <= max_len,
            !fits ==> k < v@.len() && utf8_len(v@.take(k + 1)) > max_len,
        decreases 2 * (v@.len() - k) + (if fits { 1int } else { 0int }),
    {
        let w = char_width(v[k]);
        assert(v@.take(k + 1).drop_last() =~= v@.take(k as int));
        if w > max_len - n {
            fits = false;
        } else {
            n = n + w;
            k = k + 1;
        }
    }
    if fits {
        assert(v@.take(k as int) =~= v@);
        return owned(content);
    }
    proof {
        lemma_utf8_len_prefix(v@, k + 1, v@.len() as int);
        assert(v@.take(v@.len() as int) =~= v@);
        let j = chars_in_bytes(v@, max_len as nat);
        assert(is_char_boundary(v@, max_len as nat));
        if j <= k {
            if j < k {
                lemma_utf8_len_prefix(v@, j, k as int);
            }
        } else {
            lemma_utf8_len_prefix(v@, k + 1, j);
        }
        assert(j == k);
    }
    let mut s = string_of_range(&v, 0, k);
    push_str(&mut s, "...\n[Content truncated]");
    assert(v@.subrange(0, k as int) =~= v@.take(k as int));
    s
}

// ---------------------------------------------------------------------------
// Prompt

/// What the extraction prompt asks of the model after the quoted artifact:
/// the fields of each skill and the JSON shape of the answer.
pub open spec fn extraction_instructions() -> Seq<char> {
    "\n```\n\nIdentify any reusable patterns, techniques, or approaches that could benefit future similar tasks.\nFor each skill found, provide:\n1. A clear, descriptive name\n2. A concise description of what it does\n3. The category (code_generation, refactoring, testing, debugging, architecture, performance, security, documentation, api_design, database, error_handling, or other)\n4. The pattern template that can be reused\n5. Any variables or placeholders in the pattern\n6. When this pattern is applicable\n7. Known limitations\n8. A confidence score (0.0-1.0) for how reusable this pattern is\n\nReturn your analysis as JSON with the following structure:\n{\n    \"skills\": [\n        {\n            \"name\": \"Skill Name\",\n            \"description\": \"What this skill does\",\n            \"category\": \"category_name\",\n            \"pattern_type\": \"code_template|technique|architecture_pattern\",\n            \"template\": \"The reusable template or pattern\",\n            \"variables\": [\n                {\"name\": \"var_name\", \"description\": \"what it represents\", \"required\": true}\n            ],\n            \"applicability\": [\"When this applies\", \"Another condition\"],\n            \"limitations\": [\"Known limitation\"],\n            \"confidence\": 0.8\n        }\n    ]\n}"@
}

/// The task context quoted in a prompt: the task's description, or
/// `General task` when the context has none.
pub open spec fn task_context_text(task: Option<String>) -> Seq<char> {
    match task {
        Some(t) => t@,
        None => "General task"@,
    }
}

/// The prompt that asks the model for the skills of an artifact.
pub open spec fn extraction_prompt(
    artifact_type: Seq<char>,
    task: Option<String>,
    name: Seq<char>,
    content: Seq<char>,
) -> Seq<char> {
    "Analyze this "@ + artifact_type + " for reusable skills and patterns.\n\nTask Context:\n"@
        + task_context_text(task) + "\n\nArtifact Name: "@ + name + "\nArtifact Content:\n```\n"@
        + truncated_content(content, MAX_PROMPT_CONTENT as nat) + extraction_instructions()
}

/// Build the extraction prompt for an artifact of the given kind (such as
/// `code` or `test code`), name and content; content longer than the quoted
/// maximum is cut, which must fall on a character boundary.
pub fn build_extraction_prompt(
    artifact_type: &str,
    artifact_name: &str,
    artifact_content: &str,
    context: &ExtractionContext,
) -> (r: String)
    requires
        utf8_len(artifact_content@) <= MAX_PROMPT_CONTENT || is_char_boundary(
            artifact_content@,
            MAX_PROMPT_CONTENT as nat,
        ),
    ensures
        r@ == extraction_prompt(artifact_type@, context.task_description, artifact_name@, artifact_content@),
{
    let mut s = owned("Analyze this ");
    push_str(&mut s, artifact_type);
    push_str(&mut s, " for reusable skills and patterns.\n\nTask Context:\n");
    match &context.task_description {
        Some(t) => push_str(&mut s, t.as_str()),
        None => push_str(&mut s, "General task"),
    }
    push_str(&mut s, "\n\nArtifact Name: ");
    push_str(&mut s, artifact_name);
    push_str(&mut s, "\nArtifact Content:\n```\n");
    let quoted = truncate_content(artifact_content, MAX_PROMPT_CONTENT);
    push_str(&mut s, quoted.as_str());
    push_str(&mut s, "\n```\n\nIdentify any reusable patterns, techniques, or approaches that could benefit future similar tasks.\nFor each skill found, provide:\n1. A clear, descriptive name\n2. A concise description of what it does\n3. The category (code_generation, refactoring, testing, debugging, architecture, performance, security, documentation, api_design, database, error_handling, or other)\n4. The pattern template that can be reused\n5. Any variables or placeholders in the pattern\n6. When this pattern is applicable\n7. Known limitations\n8. A confidence score (0.0-1.0) for how reusable this pattern is\n\nReturn your analysis as JSON with the following structure:\n{\n    \"skills\": [\n        {\n            \"name\": \"Skill Name\",\n            \"description\": \"What this skill does\",\n            \"category\": \"category_name\",\n            \"pattern_type\": \"code_template|technique|architecture_pattern\",\n            \"template\": \"The reusable template or pattern\",\n            \"variables\": [\n                {\"name\": \"var_name\", \"description\": \"what it represents\", \"required\": true}\n            ],\n            \"applicability\": [\"When this applies\", \"Another condition\"],\n            \"limitations\": [\"Known limitation\"],\n            \"confidence\": 0.8\n        }\n    ]\n}");
    assert(s@ =~= extraction_prompt(artifact_type@, context.task_description, artifact_name@, artifact_content@));
    s
}

// ---------------------------------------------------------------------------
// JSON in an answer

/// JSON inside a fenced block labelled `json`: what lies between the label
/// and the next fence, trimmed.
pub open spec fn json_fenced(r: Seq<char>) -> Option<Seq<char>> {
    match first_occurrence(r, "```json"@, 0) {
        Some(s) => match first_occurrence(r, "```"@, s + 7) {
            Some(e) => Some(trim_text(r.subrange(s + 7, e))),
            None => None,
        },
        None => None,
    }
}

/// Where the body of the first generic fenced block starts: after the first
/// newline that follows the fence, else right after the fence.
pub open spec fn generic_body_start(r: Seq<char>, s: int) -> int {
    match first_occurrence(r, seq!['\n'], s + 3) {
        Some(nl) => nl + 1,
        None => s + 3,
    }
}

/// JSON inside the first generic fenced block, trimmed.
pub open spec fn json_generic(r: Seq<char>) -> Option<Seq<char>> {
    match first_occurrence(r, "```"@, 0) {
        Some(s) => match first_occurrence(r, "```"@, generic_body_start(r, s)) {
            Some(e) => Some(trim_text(r.subrange(generic_body_start(r, s), e))),
            None => None,
        },
        None => None,
    }
}

/// The JSON found in an answer: a `json` fenced block, else a generic fenced
/// block, else the text from the first `{` to the last `}`, else the answer.
pub open spec fn json_in_response(r: Seq<char>) -> Seq<char> {
    match json_fenced(r) {
        Some(j) => j,
        None => match json_generic(r) {
            Some(j) => j,
            None => match (first_occurrence(r, seq!['{'], 0), last_position(r, '}')) {
                (Some(a), Some(b)) => r.subrange(a, b + 1),
                _ => r,
            },
        },
    }
}

/// The answers on which the search ends in a `{` that comes after the
/// last `}` by more than one position: slicing between them fails.
pub open spec fn braces_out_of_order(r: Seq<char>) -> bool {
    &&& json_fenced(r).is_none()
    &&& json_generic(r).is_none()
    &&& match (first_occurrence(r, seq!['{'], 0), last_position(r, '}')) {
        (Some(a), Some(b)) => b + 1 < a,
        _ => false,
    }
}

/// The trimmed text between two positions.
fn trimmed_between(v: &Vec<char>, from: usize, to: usize) -> (r: String)
    requires
        from <= to <= v@.len(),
    ensures
        r@ == trim_text(v@.subrange(from as int, to as int)),
{
    let body = string_of_range(v, from, to);
    let bv = chars_of(body.as_str());
    string_of(&trim_chars(&bv))
}

/// JSON in a `json` fenced block of the characters.
fn fenced_json(v: &Vec<char>) -> (r: Option<String>)
    ensures
        match json_fenced(v@) {
            Some(j) => r matches Some(s) && s@ == j,
            None => r.is_none(),
        },
{
    let total = v.len();
    let fence = chars_of("```");
    let labelled = chars_of("```json");
    proof {
        reveal_strlit("```");
        reveal_strlit("```json");
        assert(labelled@.len() == 7);
        assert(fence@.len() == 3);
    }
    match find_first(v, &labelled, 0) {
        Some(start) => {
            proof {
                lemma_first_occurrence_bounds(v@, labelled@, 0, start as int);
            }
            let json_start = start + 7;
            match find_first(v, &fence, json_start) {
                Some(end) => {
                    proof {
                        lemma_first_occurrence_bounds(v@, fence@, json_start as int, end as int);
                    }
                    Some(trimmed_between(v, json_start, end))
                },
                None => None,
            }
        },
        None => None,
    }
}

/// JSON in the first generic fenced block of the characters.
fn generic_json(v: &Vec<char>) -> (r: Option<String>)
    ensures
        match json_generic(v@) {
            Some(j) => r matches Some(s) && s@ == j,
            None => r.is_none(),
        },
{
    let total = v.len();
    let fence = chars_of("```");
    proof {
        reveal_strlit("```");
        assert(fence@.len() == 3);
    }
    match find_first(v, &fence, 0) {
        Some(start) => {
            proof {
                lemma_first_occurrence_bounds(v@, fence@, 0, start as int);
            }
            let potential_start = start + 3;
            let newline = vec!['\n'];
            assert(newline@ =~= seq!['\n']);
            let json_start = match find_first(v, &newline, potential_start) {
                Some(nl) => {
                    proof {
                        lemma_first_occurrence_bounds(v@, newline@, potential_start as int, nl as int);
                    }
                    nl + 1
                },
                None => potential_start,
            };
            assert(json_start as int == generic_body_start(v@, start as int));
            match find_first(v, &fence, json_start) {
                Some(end) => {
                    proof {
                        lemma_first_occurrence_bounds(v@, fence@, json_start as int, end as int);
                    }
                    Some(trimmed_between(v, json_start, end))
                },
                None => None,
            }
        },
        None => None,
    }
}

/// Whether JSON can be taken from a response: false exactly when it holds
/// no fenced block and its last `}` comes before its first `{`, the one
/// response whose slicing `extract_json_from_response` cannot do.
pub fn braces_in_order(response: &str) -> (r: bool)
    ensures
        r == !braces_out_of_order(response@),
{
    let v = chars_of(response);
    if fenced_json(&v).is_some() || generic_json(&v).is_some() {
        return true;
    }
    let open = vec!['{'];
    assert(open@ =~= seq!['{']);
    match find_first(&v, &open, 0) {
        Some(start) => match rfind_char(&v, '}') {
            Some(end) => start <= end || start - end <= 1,
            None => true,
        },
        None => true,
    }
}

/// Extract JSON from a response that might contain markdown or other text.
pub fn extract_json_from_response(response: &str) -> (r: String)
    requires
        !braces_out_of_order(response@),
    ensures
        r@ == json_in_response(response@),
{
    let v = chars_of(response);
    let total = v.len();
    match fenced_json(&v) {
        Some(j) => return j,
        None => {},
    }
    match generic_json(&v) {
        Some(j) => return j,
        None => {},
    }
    let open = vec!['{'];
    assert(open@ =~= seq!['{']);
    match find_first(&v, &open, 0) {
        Some(start) => match rfind_char(&v, '}') {
            Some(end) => {
                proof {
                    lemma_first_occurrence_bounds(v@, open@, 0, start as int);
                    lemma_last_position_bounds(v@, '}', end as int);
                }
                string_of_range(&v, start, end + 1)
            },
            None => owned(response),
        },
        None => owned(response),
    }
}

// ---------------------------------------------------------------------------
// Language of an artifact

/// The language an artifact's content looks written in.
pub open spec fn language_of(c: Seq<char>) -> Option<Seq<char>> {
    if contains_text(c, "fn "@) && (contains_text(c, "->"@) || contains_text(c, "impl "@)) {
        Some("rust"@)
    } else if contains_text(c, "def "@) && contains_text(c, ":"@) && !contains_text(c, "{"@) {
        Some("python"@)
    } else if contains_text(c, "const "@) || contains_text(c, "let "@) || contains_text(c, "function "@) {
        if contains_text(c, ": "@) && (contains_text(c, "interface "@) || contains_text(c, ": string"@)
            || contains_text(c, ": number"@)) {
            Some("typescript"@)
        } else {
            Some("javascript"@)
        }
    } else if contains_text(c, "func "@) && contains_text(c, "package "@) {
        Some("go"@)
    } else if contains_text(lowercase_of(c), "public class "@) || contains_text(lowercase_of(c), "private class "@) {
        Some("java"@)
    } else if contains_text(c, "def "@) && contains_text(c, "end"@) && !contains_text(c, "{"@) {
        Some("ruby"@)
    } else {
        None
    }
}

/// Content is detected as Rust exactly when it has a function (`fn `) with
/// a return arrow (`->`) or an `impl ` block, whatever else it holds; and the
/// language detected is always one of Rust, Python, TypeScript, JavaScript,
/// Go, Java and Ruby, or none.
pub proof fn lemma_rust_is_detected(c: Seq<char>)
    ensures
        language_of(c) == Some("rust"@) <==> (contains_text(c, "fn "@) && (contains_text(c, "->"@)
            || contains_text(c, "impl "@))),
        contains_text(c, "fn "@) && contains_text(c, "impl "@) ==> language_of(c) == Some("rust"@),
        contains_text(c, "fn "@) && contains_text(c, "->"@) ==> language_of(c) == Some("rust"@),
        language_of(c) matches Some(l) ==> (l == "rust"@ || l == "python"@ || l == "typescript"@ || l
            == "javascript"@ || l == "go"@ || l == "java"@ || l == "ruby"@),
{
    reveal_strlit("rust");
    reveal_strlit("python");
    reveal_strlit("typescript");
    reveal_strlit("javascript");
    reveal_strlit("go");
    reveal_strlit("java");
    reveal_strlit("ruby");
    assert("rust"@[0] != "python"@[0]);
    assert("rust"@[0] != "typescript"@[0]);
    assert("rust"@[0] != "javascript"@[0]);
    assert("rust"@[0] != "go"@[0]);
    assert("rust"@[0] != "java"@[0]);
    assert("rust"@[2] != "ruby"@[2]);
}

/// Detect the programming language of content.
pub fn detect_language(content: &str) -> (r: Option<String>)
    ensures
        match language_of(content@) {
            Some(l) => r matches Some(s) && s@ == l,
            None => r.is_none(),
        },
{
    let lower = to_lowercase(content);
    if str_contains(content, "fn ") && (str_contains(content, "->") || str_contains(content, "impl ")) {
        return Some(owned("rust"));
    }
    if str_contains(content, "def ") && str_contains(content, ":") && !str_contains(content, "{") {
        return Some(owned("python"));
    }
    if str_contains(content, "const ") || str_contains(content, "let ") || str_contains(content, "function ") {
        if str_contains(content, ": ") && (str_contains(content, "interface ") || str_contains(content, ": string")
            || str_contains(content, ": number")) {
            return Some(owned("typescript"));
        }
        return Some(owned("javascript"));
    }
    if str_contains(content, "func ") && str_contains(content, "package ") {
        return Some(owned("go"));
    }
    if str_contains(lower.as_str(), "public class ") || str_contains(lower.as_str(), "private class ") {
        return Some(owned("java"));
    }
    if str_contains(content, "def ") && str_contains(content, "end") && !str_contains(content, "{") {
        return Some(owned("ruby"));
    }
    None
}

// ---------------------------------------------------------------------------
// Extracted skills

/// The pattern type a name from an extraction stands for; unknown names
/// are code templates.
pub open spec fn pattern_type_of_name(s: Seq<char>) -> PatternType {
    if s == "technique"@ {
        PatternType::Technique
    } else if s == "architecture_pattern"@ {
        PatternType::ArchitecturePattern
    } else if s == "command_template"@ {
        PatternType::CommandTemplate
    } else if s == "config_pattern"@ {
        PatternType::ConfigPattern
    } else if s == "workflow_pattern"@ {
        PatternType::WorkflowPattern
    } else {
        PatternType::CodeTemplate
    }
}

/// The pattern type named in an extraction.
pub fn pattern_type_from_name(s: &str) -> (r: PatternType)
    ensures
        r == pattern_type_of_name(s@),
{
    if str_eq(s, "technique") {
        PatternType::Technique
    } else if str_eq(s, "architecture_pattern") {
        PatternType::ArchitecturePattern
    } else if str_eq(s, "command_template") {
        PatternType::CommandTemplate
    } else if str_eq(s, "config_pattern") {
        PatternType::ConfigPattern
    } else if str_eq(s, "workflow_pattern") {
        PatternType::WorkflowPattern
    } else {
        PatternType::CodeTemplate
    }
}

/// A variable as an extraction describes it.
#[derive(Debug, Clone)]
pub struct ExtractedVariable {
    pub name: String,
    pub description: String,
    pub required: bool,
}

/// A skill as an extraction describes it; its confidence is already
/// graded into a level.
#[derive(Debug, Clone)]
pub struct ExtractedSkill {
    pub name: String,
    pub description: String,
    pub category: String,
    pub pattern_type: String,
    pub template: String,
    pub variables: Vec<ExtractedVariable>,
    pub applicability: Vec<String>,
    pub limitations: Vec<String>,
    pub confidence: SkillConfidence,
}

/// The text of an optional value, or the empty text.
pub open spec fn text_or_empty_of(o: Option<String>) -> Seq<char> {
    match o {
        Some(s) => s@,
        None => Seq::<char>::empty(),
    }
}

/// The text of an optional value, or the empty text.
fn text_or_empty(o: &Option<String>) -> (r: &str)
    ensures
        r@ == text_or_empty_of(*o),
{
    proof {
        reveal_strlit("");
    }
    match o {
        Some(s) => s.as_str(),
        None => "",
    }
}

/// Convert an extracted skill into a learned skill: its category and pattern
/// type are read from their names, its variables keep whether they are
/// required, its source records the context (empty texts where it is
/// silent) and the model, and its metadata the language of the artifact.
pub fn convert_extracted_skill(
    extracted: ExtractedSkill,
    artifact_content: &str,
    context: &ExtractionContext,
    model: &str,
) -> (r: LearnedSkill)
    ensures
        r.name@ == extracted.name@,
        r.description@ == extracted.description@,
        r.category == crate::skills::types::category_of_text(lowercase_of(extracted.category@)),
        r.pattern.pattern_type == pattern_type_of_name(extracted.pattern_type@),
        r.pattern.template == extracted.template,
        r.pattern.applicability == extracted.applicability,
        r.pattern.limitations == extracted.limitations,
        r.pattern.variables@.len() == extracted.variables@.len(),
        forall|i: int| 0 <= i < r.pattern.variables@.len() ==> {
            let v = #[trigger] r.pattern.variables@[i];
            let e = extracted.variables@[i];
            v.name@ == e.name@ && v.description@ == e.description@ && v.required == e.required
                && v.example.is_none()
        },
        r.confidence == extracted.confidence,
        r.source.project_id matches Some(p) && p@ == text_or_empty_of(context.project_id),
        r.source.feature_id matches Some(f) && f@ == text_or_empty_of(context.feature_id),
        r.source.agent_type matches Some(a) && a@ == text_or_empty_of(context.agent_type),
        r.source.original_task matches Some(t) && t@ == text_or_empty_of(context.task_description),
        r.source.model_used matches Some(m) && m@ == model@,
        r.source.tokens_used.is_none(),
        match language_of(artifact_content@) {
            Some(l) => r.metadata.language matches Some(s) && s@ == l,
            None => r.metadata.language.is_none(),
        },
{
    let category = SkillCategory::from_str(extracted.category.as_str());
    let pattern_type = pattern_type_from_name(extracted.pattern_type.as_str());
    let mut variables: Vec<PatternVariable> = Vec::new();
    let mut i: usize = 0;
    while i < extracted.variables.len()
        invariant
            i <= extracted.variables@.len(),
            variables@.len() == i,
            forall|k: int| 0 <= k < i ==> {
                let v = #[trigger] variables@[k];
                let e = extracted.variables@[k];
                v.name@ == e.name@ && v.description@ == e.description@ && v.required == e.required
                    && v.example.is_none()
            },
        decreases extracted.variables@.len() - i,
    {
        let e = &extracted.variables[i];
        let v = if e.required {
            PatternVariable::required(e.name.as_str(), e.description.as_str())
        } else {
            PatternVariable::optional(e.name.as_str(), e.description.as_str())
        };
        variables.push(v);
        i = i + 1;
    }
    let pattern = SkillPattern {
        pattern_type,
        template: extracted.template,
        variables,
        applicability: extracted.applicability,
        limitations: extracted.limitations,
    };
    let source = SkillSource::new().with_project(text_or_empty(&context.project_id)).with_feature(
        text_or_empty(&context.feature_id),
    ).with_agent(text_or_empty(&context.agent_type)).with_task(text_or_empty(&context.task_description)).with_model(
        model,
    );
    let metadata = match detect_language(artifact_content) {
        Some(lang) => SkillMetadata::new().with_language(lang.as_str()),
        None => SkillMetadata::new(),
    };
    LearnedSkill::new(extracted.name.as_str(), extracted.description.as_str(), category, pattern).with_source(
        source,
    ).with_confidence(extracted.confidence).with_metadata(metadata)
}

} // verus!

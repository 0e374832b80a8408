//! Skills found by analysing debugging sessions: their types, the context
//! they apply in, where they were observed, and the texts that name them.

use vstd::prelude::*;
use crate::text::{
    chars_of, contains_text, lemma_utf8_len_prefix, lowercase_of, owned, push_str, str_contains, str_eq,
    string_of_range, to_lowercase, utf8_len, char_width,
};

verus! {

// ---------------------------------------------------------------------------
// Types

/// Types of skills that can be extracted.
#[derive(Debug, Clone, Copy, PartialEq, Eq, Structural)]
pub enum SkillType {
    /// Error pattern matched to a solution
    ErrorSolution,
    /// Repeated debugging technique
    Technique,
    /// Architectural pattern
    ArchitecturePattern,
    /// Code transformation pattern
    CodeTransform,
    /// Configuration pattern
    ConfigPattern,
    /// Testing strategy
    TestingStrategy,
}

/// The name of a skill type.
pub open spec fn skill_type_text(t: SkillType) -> Seq<char> {
    match t {
        SkillType::ErrorSolution => "error_solution"@,
        SkillType::Technique => "technique"@,
        SkillType::ArchitecturePattern => "architecture_pattern"@,
        SkillType::CodeTransform => "code_transform"@,
        SkillType::ConfigPattern => "config_pattern"@,
        SkillType::TestingStrategy => "testing_strategy"@,
    }
}

impl SkillType {
    /// Get the string representation.
    pub fn as_str(&self) -> (r: &'static str)
        ensures
            r@ == skill_type_text(*self),
    {
        match self {
            SkillType::ErrorSolution => "error_solution",
            SkillType::Technique => "technique",
            SkillType::ArchitecturePattern => "architecture_pattern",
            SkillType::CodeTransform => "code_transform",
            SkillType::ConfigPattern => "config_pattern",
            SkillType::TestingStrategy => "testing_strategy",
        }
    }
}

// ---------------------------------------------------------------------------
// Context

/// Context information for when a skill applies.
#[derive(Debug, Clone)]
pub struct SkillContext {
    /// Error pattern this skill addresses (if applicable)
    pub error_pattern: Option<String>,
    /// Description of when this skill applies
    pub description: Option<String>,
    /// Programming language (if specific)
    pub language: Option<String>,
    /// Framework (if specific)
    pub framework: Option<String>,
    /// Preconditions for applying this skill
    pub preconditions: Vec<String>,
    /// Postconditions after applying this skill
    pub postconditions: Vec<String>,
}

impl Default for SkillContext {
    /// A context that says nothing.
    fn default() -> (r: Self)
        ensures
            r.error_pattern.is_none() && r.description.is_none(),
            r.language.is_none() && r.framework.is_none(),
            r.preconditions@.len() == 0 && r.postconditions@.len() == 0,
    {
        SkillContext {
            error_pattern: None,
            description: None,
            language: None,
            framework: None,
            preconditions: Vec::new(),
            postconditions: Vec::new(),
        }
    }
}

// ---------------------------------------------------------------------------
// Sources

/// Source information for how a skill was discovered.
#[derive(Debug, Clone)]
pub struct SkillSourceInfo {
    /// Session IDs where this skill was observed
    pub session_ids: Vec<String>,
    /// Project IDs where this skill was applied
    pub project_ids: Vec<String>,
    /// Original event IDs that led to extraction
    pub event_ids: Vec<String>,
}

/// The texts of a list of strings.
pub open spec fn texts(v: Seq<String>) -> Seq<Seq<char>> {
    v.map_values(|s: String| s@)
}

/// Whether no text occurs twice.
pub open spec fn distinct(s: Seq<Seq<char>>) -> bool {
    forall|i: int, j: int| 0 <= i < j < s.len() ==> s[i] != s[j]
}

/// A list after adding a text that is kept only if absent.
pub open spec fn with_unique(s: Seq<Seq<char>>, t: Seq<char>) -> Seq<Seq<char>> {
    if s.contains(t) {
        s
    } else {
        s.push(t)
    }
}

/// Whether a list holds a string with the given text.
fn contains_text_item(v: &Vec<String>, t: &str) -> (r: bool)
    ensures
        r == texts(v@).contains(t@),
{
    let mut i: usize = 0;
    while i < v.len()
        invariant
            i <= v@.len(),
            forall|k: int| 0 <= k < i ==> v@[k]@ != t@,
        decreases v@.len() - i,
    {
        if str_eq(v[i].as_str(), t) {
            assert(texts(v@)[i as int] == t@);
            return true;
        }
        i = i + 1;
    }
    proof {
        if texts(v@).contains(t@) {
            let k = choose|k: int| 0 <= k < texts(v@).len() && texts(v@)[k] == t@;
            assert(v@[k]@ == t@);
        }
    }
    false
}

/// Add a text to a list unless it is already there.
fn push_unique(v: &mut Vec<String>, t: String)
    ensures
        texts(final(v)@) == with_unique(texts(old(v)@), t@),
{
    if !contains_text_item(v, t.as_str()) {
        let ghost before = v@;
        v.push(t);
        assert(texts(v@) =~= texts(before).push(t@));
    }
}

impl SkillSourceInfo {
    /// Create new source info from a session.
    pub fn from_session(session_id: &str) -> (r: SkillSourceInfo)
        ensures
            texts(r.session_ids@) == seq![session_id@],
            r.project_ids@.len() == 0,
            r.event_ids@.len() == 0,
    {
        let mut session_ids: Vec<String> = Vec::new();
        session_ids.push(owned(session_id));
        assert(texts(session_ids@) =~= seq![session_id@]);
        SkillSourceInfo { session_ids, project_ids: Vec::new(), event_ids: Vec::new() }
    }

    /// Add a session ID, unless it is already recorded.
    pub fn add_session(&mut self, session_id: &str)
        ensures
            texts(final(self).session_ids@) == with_unique(texts(old(self).session_ids@), session_id@),
            final(self).project_ids == old(self).project_ids,
            final(self).event_ids == old(self).event_ids,
    {
        push_unique(&mut self.session_ids, owned(session_id));
    }

    /// Add a project ID, unless it is already recorded.
    pub fn add_project(&mut self, project_id: &str)
        ensures
            texts(final(self).project_ids@) == with_unique(texts(old(self).project_ids@), project_id@),
            final(self).session_ids == old(self).session_ids,
            final(self).event_ids == old(self).event_ids,
    {
        push_unique(&mut self.project_ids, owned(project_id));
    }

    /// Add an event ID; events are recorded as they come, repeats included.
    pub fn add_event(&mut self, event_id: &str)
        ensures
            texts(final(self).event_ids@) == texts(old(self).event_ids@).push(event_id@),
            final(self).session_ids == old(self).session_ids,
            final(self).project_ids == old(self).project_ids,
    {
        let ghost before = self.event_ids@;
        self.event_ids.push(owned(event_id));
        assert(texts(self.event_ids@) =~= texts(before).push(event_id@));
    }
}

impl Default for SkillSourceInfo {
    /// Source information that records nothing.
    fn default() -> (r: Self)
        ensures
            r.session_ids@.len() == 0 && r.project_ids@.len() == 0 && r.event_ids@.len() == 0,
    {
        SkillSourceInfo { session_ids: Vec::new(), project_ids: Vec::new(), event_ids: Vec::new() }
    }
}

/// Adding a text unless present keeps a list free of repeats, and the text
/// is in the list afterwards.
pub proof fn lemma_with_unique_keeps_distinct(s: Seq<Seq<char>>, t: Seq<char>)
    requires
        distinct(s),
    ensures
        distinct(with_unique(s, t)),
        with_unique(s, t).contains(t),
        forall|x: Seq<char>| s.contains(x) ==> with_unique(s, t).contains(x),
{
    if !s.contains(t) {
        let u = s.push(t);
        assert forall|i: int, j: int| 0 <= i < j < u.len() implies u[i] != u[j] by {
            if j == s.len() {
                assert(s[i] == u[i]);
            }
        }
        assert(u[s.len() as int] == t);
        assert forall|x: Seq<char>| s.contains(x) implies u.contains(x) by {
            let k = choose|k: int| 0 <= k < s.len() && s[k] == x;
            assert(u[k] == x);
        }
    }
}

/// Adding a text twice adds it once: a second `add_session` or
/// `add_project` of the same ID changes nothing.
pub proof fn lemma_with_unique_idempotent(s: Seq<Seq<char>>, t: Seq<char>)
    ensures
        with_unique(with_unique(s, t), t) == with_unique(s, t),
{
    if !s.contains(t) {
        assert(s.push(t)[s.len() as int] == t);
    }
}

// ---------------------------------------------------------------------------
// Texts that name skills

/// Whether `b` bytes end a whole number of characters of `s`.
pub open spec fn byte_boundary(s: Seq<char>, b: nat) -> bool {
    exists|k: int| 0 <= k <= s.len() && utf8_len(#[trigger] s.take(k)) == b
}

/// The first `max_len` bytes of a text, or the whole text when it is shorter.
pub open spec fn truncated(s: Seq<char>, max_len: nat) -> Seq<char> {
    if utf8_len(s) <= max_len {
        s
    } else {
        s.take(choose|k: int| 0 <= k <= s.len() && utf8_len(#[trigger] s.take(k)) == max_len)
    }
}

/// A truncated text is a prefix of the text that takes at most `max_len`
/// bytes, and a text that fits is kept whole.
pub proof fn lemma_truncated_is_short_prefix(s: Seq<char>, max_len: nat)
    requires
        utf8_len(s) <= max_len || byte_boundary(s, max_len),
    ensures
        utf8_len(truncated(s, max_len)) <= max_len,
        exists|k: int| 0 <= k <= s.len() && truncated(s, max_len) == s.take(k),
        utf8_len(s) <= max_len ==> truncated(s, max_len) == s,
{
    if utf8_len(s) <= max_len {
        assert(s.take(s.len() as int) =~= s);
    } else {
        let k = choose|k: int| 0 <= k <= s.len() && utf8_len(#[trigger] s.take(k)) == max_len;
        assert(truncated(s, max_len) == s.take(k));
    }
}

/// The first `max_len` bytes of a text; a longer text must be cut at a
/// character boundary.
pub fn truncate(s: &str, max_len: usize) -> (r: String)
    requires
        utf8_len(s@) <= max_len || byte_boundary(s@, max_len as nat),
    ensures
        r@ == truncated(s@, max_len as nat),
{
    let v = chars_of(s);
    let mut n: usize = 0;
    let mut k: usize = 0;
    let mut fits = true;
    while k < v.len() && fits
        invariant
            k <= v@.len(),
            v@ == s@,
            n == utf8_len(v@.take(k as int)),
            n <= max_len,
            !fits ==> k < v@.len() && utf8_len(v@.take(k + 1)) > max_len,
        decreases 2 * (v@.len() - k) + (if fits { 1int } else { 0int }),
    {
        let w = char_width(v[k]);
        assert(v@.take(k + 1).drop_last() =~= v@.take(k as int));
        if w > max_len - n {
            fits = false;
        } else {
            n = n + w;
            k = k + 1;
        }
    }
    if fits {
        assert(v@.take(k as int) =~= v@);
        return owned(s);
    }
    proof {
        lemma_utf8_len_prefix(v@, k + 1, v@.len() as int);
        assert(v@.take(v@.len() as int) =~= v@);
        let j = choose|j: int| 0 <= j <= v@.len() && utf8_len(#[trigger] v@.take(j)) == max_len;
        if j < k {
            lemma_utf8_len_prefix(v@, j, k as int);
        } else if j > k {
            lemma_utf8_len_prefix(v@, k + 1, j);
        }
    }
    let r = string_of_range(&v, 0, k);
    assert(v@.subrange(0, k as int) =~= v@.take(k as int));
    r
}

/// The name of a skill made from an error and its solution.
pub fn error_solution_name(error: &str) -> (r: String)
    requires
        utf8_len(error@) <= 50 || byte_boundary(error@, 50),
    ensures
        r@ == "Fix: "@ + truncated(error@, 50),
{
    let mut s = owned("Fix: ");
    push_str(&mut s, truncate(error, 50).as_str());
    s
}

/// The description of a skill made from an error and its solution.
pub fn error_solution_description(error: &str, solution: &str) -> (r: String)
    requires
        utf8_len(error@) <= 100 || byte_boundary(error@, 100),
        utf8_len(solution@) <= 200 || byte_boundary(solution@, 200),
    ensures
        r@ == "When encountering '"@ + truncated(error@, 100) + "', apply: "@ + truncated(solution@, 200),
{
    let mut s = owned("When encountering '");
    push_str(&mut s, truncate(error, 100).as_str());
    push_str(&mut s, "', apply: ");
    push_str(&mut s, truncate(solution, 200).as_str());
    s
}

/// The description of a skill made from a repeated technique.
pub fn technique_description(applicability: &str) -> (r: String)
    ensures
        r@ == "Technique applicable when: "@ + applicability@,
{
    let mut s = owned("Technique applicable when: ");
    push_str(&mut s, applicability);
    s
}

// ---------------------------------------------------------------------------
// Observations

/// Merge the tags of another observation: each tag not yet present is
/// added, in order.
pub fn merge_tags(tags: &mut Vec<String>, other: &Vec<String>)
    ensures
        forall|x: Seq<char>| texts(old(tags)@).contains(x) ==> texts(final(tags)@).contains(x),
        forall|i: int| 0 <= i < other@.len() ==> texts(final(tags)@).contains(#[trigger] other@[i]@),
        forall|x: Seq<char>| texts(final(tags)@).contains(x) ==> texts(old(tags)@).contains(x) || texts(
            other@,
        ).contains(x),
        distinct(texts(old(tags)@)) ==> distinct(texts(final(tags)@)),
{
    let ghost start = texts(tags@);
    let mut i: usize = 0;
    while i < other.len()
        invariant
            i <= other@.len(),
            forall|x: Seq<char>| start.contains(x) ==> texts(tags@).contains(x),
            forall|k: int| 0 <= k < i ==> texts(tags@).contains(#[trigger] other@[k]@),
            forall|x: Seq<char>| texts(tags@).contains(x) ==> start.contains(x) || texts(other@).contains(x),
            distinct(start) ==> distinct(texts(tags@)),
        decreases other@.len() - i,
    {
        let ghost before = texts(tags@);
        let t = owned(other[i].as_str());
        push_unique(tags, t);
        proof {
            let after = texts(tags@);
            let ti = other@[i as int]@;
            assert(texts(other@)[i as int] == ti);
            if distinct(before) {
                lemma_with_unique_keeps_distinct(before, ti);
            }
            if !before.contains(ti) {
                assert(after =~= before.push(ti));
                assert(after[before.len() as int] == ti);
                assert forall|x: Seq<char>| before.contains(x) implies after.contains(x) by {
                    let k = choose|k: int| 0 <= k < before.len() && before[k] == x;
                    assert(after[k] == x);
                }
            }
        }
        i = i + 1;
    }
}

/// Whether a skill still needs validation: fewer than three observations
/// or fewer than two tested contexts.
pub fn needs_validation(observation_count: u32, tested_contexts: u32) -> (r: bool)
    ensures
        r == (observation_count < 3 || tested_contexts < 2),
{
    observation_count < 3 || tested_contexts < 2
}

/// Whether a text contains a query, both lower-cased.
pub open spec fn contains_ignoring_case(text: Seq<char>, query: Seq<char>) -> bool {
    contains_text(lowercase_of(text), lowercase_of(query))
}

/// Check if a skill matches a search query: the lower-cased query occurs in
/// its lower-cased name, description, pattern, a tag, or error pattern.
pub fn skill_matches_query(
    name: &str,
    description: &str,
    pattern: &str,
    tags: &Vec<String>,
    error_pattern: &Option<String>,
    query: &str,
) -> (r: bool)
    ensures
        r == (contains_ignoring_case(name@, query@) || contains_ignoring_case(description@, query@)
            || contains_ignoring_case(pattern@, query@) || (exists|i: int|
            0 <= i < tags@.len() && contains_ignoring_case(#[trigger] tags@[i]@, query@)) || match error_pattern {
            Some(e) => contains_ignoring_case(e@, query@),
            None => false,
        }),
{
    let q = to_lowercase(query);
    let qs = q.as_str();
    if str_contains(to_lowercase(name).as_str(), qs) || str_contains(to_lowercase(description).as_str(), qs)
        || str_contains(to_lowercase(pattern).as_str(), qs) {
        return true;
    }
    let mut i: usize = 0;
    while i < tags.len()
        invariant
            i <= tags@.len(),
            q@ == lowercase_of(query@),
            forall|k: int| 0 <= k < i ==> !contains_ignoring_case(#[trigger] tags@[k]@, query@),
        decreases tags@.len() - i,
    {
        if str_contains(to_lowercase(tags[i].as_str()).as_str(), q.as_str()) {
            return true;
        }
        i = i + 1;
    }
    match error_pattern {
        Some(e) => str_contains(to_lowercase(e.as_str()).as_str(), q.as_str()),
        None => false,
    }
}

// ---------------------------------------------------------------------------
// Errors

/// Errors that can occur during skill extraction.
#[derive(Debug, Clone)]
pub enum SkillExtractionError {
    /// The lock expired before skill extraction completed
    LockExpired,
    /// Validation failed for extracted skills
    Validation(String),
    /// Not enough observations to extract a skill
    InsufficientObservations(String),
    /// No extractable patterns found
    NoPatterns,
}

/// The message of an extraction error.
pub open spec fn extraction_error_text(e: SkillExtractionError) -> Seq<char> {
    match e {
        SkillExtractionError::LockExpired => "Lock expired before skill extraction completed"@,
        SkillExtractionError::Validation(m) => "Validation failed: "@ + m@,
        SkillExtractionError::InsufficientObservations(m) => "Insufficient observations: "@ + m@,
        SkillExtractionError::NoPatterns => "No patterns found in session"@,
    }
}

impl SkillExtractionError {
    /// The message of the error.
    pub fn message(&self) -> (r: String)
        ensures
            r@ == extraction_error_text(*self),
    {
        match self {
            SkillExtractionError::LockExpired => owned("Lock expired before skill extraction completed"),
            SkillExtractionError::Validation(m) => crate::http::prefixed("Validation failed: ", m.as_str()),
            SkillExtractionError::InsufficientObservations(m) => crate::http::prefixed(
                "Insufficient observations: ",
                m.as_str(),
            ),
            SkillExtractionError::NoPatterns => owned("No patterns found in session"),
        }
    }
}

} // verus!

//! Data types of the learned skills system: skills, their categories,
//! patterns, sources, confidence and usage statistics.

use vstd::prelude::*;
use std::cmp::Ordering;
use vstd::std_specs::cmp::PartialOrdSpecImpl;
use crate::clock::now_micros;
use crate::ids::{id_to_string, new_v4, uuid_text};
use crate::text::{ascii_lower, contains_text, is_ascii_text, lowercase_of, owned, str_contains, str_eq, to_lowercase};

verus! {

// ---------------------------------------------------------------------------
// Categories

/// Categories for organizing skills.
#[derive(Debug, Clone, Copy, PartialEq, Eq, Hash, Structural)]
pub enum SkillCategory {
    /// Code generation patterns
    CodeGeneration,
    /// Code refactoring techniques
    Refactoring,
    /// Testing strategies
    Testing,
    /// Debugging approaches
    Debugging,
    /// Architecture patterns
    Architecture,
    /// Performance optimization
    Performance,
    /// Security best practices
    Security,
    /// Documentation patterns
    Documentation,
    /// API design patterns
    ApiDesign,
    /// Database patterns
    Database,
    /// Error handling
    ErrorHandling,
    /// Other/uncategorized
    Other,
}

/// The name of a category.
pub open spec fn category_text(c: SkillCategory) -> Seq<char> {
    match c {
        SkillCategory::CodeGeneration => "code_generation"@,
        SkillCategory::Refactoring => "refactoring"@,
        SkillCategory::Testing => "testing"@,
        SkillCategory::Debugging => "debugging"@,
        SkillCategory::Architecture => "architecture"@,
        SkillCategory::Performance => "performance"@,
        SkillCategory::Security => "security"@,
        SkillCategory::Documentation => "documentation"@,
        SkillCategory::ApiDesign => "api_design"@,
        SkillCategory::Database => "database"@,
        SkillCategory::ErrorHandling => "error_handling"@,
        SkillCategory::Other => "other"@,
    }
}

/// The category a lower-case name or alias stands for; any other text is `Other`.
pub open spec fn category_of_text(s: Seq<char>) -> SkillCategory {
    if s == "code_generation"@ || s == "codegen"@ {
        SkillCategory::CodeGeneration
    } else if s == "refactoring"@ || s == "refactor"@ {
        SkillCategory::Refactoring
    } else if s == "testing"@ || s == "test"@ {
        SkillCategory::Testing
    } else if s == "debugging"@ || s == "debug"@ {
        SkillCategory::Debugging
    } else if s == "architecture"@ || s == "arch"@ {
        SkillCategory::Architecture
    } else if s == "performance"@ || s == "perf"@ {
        SkillCategory::Performance
    } else if s == "security"@ || s == "sec"@ {
        SkillCategory::Security
    } else if s == "documentation"@ || s == "docs"@ {
        SkillCategory::Documentation
    } else if s == "api_design"@ || s == "api"@ {
        SkillCategory::ApiDesign
    } else if s == "database"@ || s == "db"@ {
        SkillCategory::Database
    } else if s == "error_handling"@ || s == "errors"@ {
        SkillCategory::ErrorHandling
    } else {
        SkillCategory::Other
    }
}

/// All categories, in declaration order.
pub open spec fn all_categories() -> Seq<SkillCategory> {
    seq![
        SkillCategory::CodeGeneration,
        SkillCategory::Refactoring,
        SkillCategory::Testing,
        SkillCategory::Debugging,
        SkillCategory::Architecture,
        SkillCategory::Performance,
        SkillCategory::Security,
        SkillCategory::Documentation,
        SkillCategory::ApiDesign,
        SkillCategory::Database,
        SkillCategory::ErrorHandling,
        SkillCategory::Other,
    ]
}

impl SkillCategory {
    /// Get the string representation.
    pub fn as_str(&self) -> (r: &'static str)
        ensures
            r@ == category_text(*self),
    {
        match self {
            SkillCategory::CodeGeneration => "code_generation",
            SkillCategory::Refactoring => "refactoring",
            SkillCategory::Testing => "testing",
            SkillCategory::Debugging => "debugging",
            SkillCategory::Architecture => "architecture",
            SkillCategory::Performance => "performance",
            SkillCategory::Security => "security",
            SkillCategory::Documentation => "documentation",
            SkillCategory::ApiDesign => "api_design",
            SkillCategory::Database => "database",
            SkillCategory::ErrorHandling => "error_handling",
            SkillCategory::Other => "other",
        }
    }

    /// The category of a lower-case name or alias.
    pub fn from_lowercase(s: &str) -> (r: SkillCategory)
        ensures
            r == category_of_text(s@),
    {
        if str_eq(s, "code_generation") || str_eq(s, "codegen") {
            SkillCategory::CodeGeneration
        } else if str_eq(s, "refactoring") || str_eq(s, "refactor") {
            SkillCategory::Refactoring
        } else if str_eq(s, "testing") || str_eq(s, "test") {
            SkillCategory::Testing
        } else if str_eq(s, "debugging") || str_eq(s, "debug") {
            SkillCategory::Debugging
        } else if str_eq(s, "architecture") || str_eq(s, "arch") {
            SkillCategory::Architecture
        } else if str_eq(s, "performance") || str_eq(s, "perf") {
            SkillCategory::Performance
        } else if str_eq(s, "security") || str_eq(s, "sec") {
            SkillCategory::Security
        } else if str_eq(s, "documentation") || str_eq(s, "docs") {
            SkillCategory::Documentation
        } else if str_eq(s, "api_design") || str_eq(s, "api") {
            SkillCategory::ApiDesign
        } else if str_eq(s, "database") || str_eq(s, "db") {
            SkillCategory::Database
        } else if str_eq(s, "error_handling") || str_eq(s, "errors") {
            SkillCategory::ErrorHandling
        } else {
            SkillCategory::Other
        }
    }

    /// Parse from string, case-insensitively; unknown names are `Other`.
    pub fn from_str(s: &str) -> (r: SkillCategory)
        ensures
            r == category_of_text(lowercase_of(s@)),
            is_ascii_text(s@) ==> r == category_of_text(s@.map_values(|c: char| ascii_lower(c))),
    {
        let lower = to_lowercase(s);
        SkillCategory::from_lowercase(lower.as_str())
    }

    /// Get all categories.
    pub fn all() -> (r: Vec<SkillCategory>)
        ensures
            r@ == all_categories(),
    {
        let r = vec![
            SkillCategory::CodeGeneration,
            SkillCategory::Refactoring,
            SkillCategory::Testing,
            SkillCategory::Debugging,
            SkillCategory::Architecture,
            SkillCategory::Performance,
            SkillCategory::Security,
            SkillCategory::Documentation,
            SkillCategory::ApiDesign,
            SkillCategory::Database,
            SkillCategory::ErrorHandling,
            SkillCategory::Other,
        ];
        assert(r@ =~= all_categories());
        r
    }

    /// The name of the category, owned.
    pub fn to_string(&self) -> (r: String)
        ensures
            r@ == category_text(*self),
    {
        owned(self.as_str())
    }
}

/// Every category's name reads back as that category.
pub proof fn lemma_category_round_trip(c: SkillCategory)
    ensures
        category_of_text(category_text(c)) == c,
{
    reveal_strlit("code_generation");
    reveal_strlit("codegen");
    reveal_strlit("refactoring");
    reveal_strlit("refactor");
    reveal_strlit("testing");
    reveal_strlit("test");
    reveal_strlit("debugging");
    reveal_strlit("debug");
    reveal_strlit("architecture");
    reveal_strlit("arch");
    reveal_strlit("performance");
    reveal_strlit("perf");
    reveal_strlit("security");
    reveal_strlit("sec");
    reveal_strlit("documentation");
    reveal_strlit("docs");
    reveal_strlit("api_design");
    reveal_strlit("api");
    reveal_strlit("database");
    reveal_strlit("db");
    reveal_strlit("error_handling");
    reveal_strlit("errors");
    reveal_strlit("other");
    let t = category_text(c);
    let l = t.len();
    assert(t[0] == 'c' ==> c == SkillCategory::CodeGeneration);
    assert(t[0] == 'r' ==> c == SkillCategory::Refactoring);
    assert(t[0] == 't' ==> c == SkillCategory::Testing);
    assert(t[0] == 'a' && t[1] == 'r' ==> c == SkillCategory::Architecture);
    assert(t[0] == 'a' && t[1] == 'p' ==> c == SkillCategory::ApiDesign);
    assert(t[0] == 'p' ==> c == SkillCategory::Performance);
    assert(t[0] == 's' ==> c == SkillCategory::Security);
    assert(t[0] == 'o' ==> c == SkillCategory::Other);
    assert(t[0] == 'e' ==> c == SkillCategory::ErrorHandling);
    assert(t[0] == 'd' && t[1] == 'e' ==> c == SkillCategory::Debugging);
    assert(t[0] == 'd' && t[1] == 'o' ==> c == SkillCategory::Documentation);
    assert(t[0] == 'd' && t[1] == 'a' ==> c == SkillCategory::Database);
    if c != SkillCategory::CodeGeneration {
        assert(t != "code_generation"@ && t != "codegen"@) by {
            assert(t[0] != 'c');
        }
    }
    if c != SkillCategory::Refactoring {
        assert(t != "refactoring"@ && t != "refactor"@) by {
            assert(t[0] != 'r');
        }
    }
    if c != SkillCategory::Testing {
        assert(t != "testing"@ && t != "test"@) by {
            assert(t[0] != 't');
        }
    }
    if c != SkillCategory::Debugging {
        assert(t != "debugging"@ && t != "debug"@) by {
            assert(t[0] != 'd' || t[1] != 'e');
        }
    }
    if c != SkillCategory::Architecture {
        assert(t != "architecture"@ && t != "arch"@) by {
            assert(t[0] != 'a' || t[1] != 'r');
        }
    }
    if c != SkillCategory::Performance {
        assert(t != "performance"@ && t != "perf"@) by {
            assert(t[0] != 'p');
        }
    }
    if c != SkillCategory::Security {
        assert(t != "security"@ && t != "sec"@) by {
            assert(t[0] != 's');
        }
    }
    if c != SkillCategory::Documentation {
        assert(t != "documentation"@ && t != "docs"@) by {
            assert(t[0] != 'd' || t[1] != 'o');
        }
    }
    if c != SkillCategory::ApiDesign {
        assert(t != "api_design"@ && t != "api"@) by {
            assert(t[0] != 'a' || t[1] != 'p');
        }
    }
    if c != SkillCategory::Database {
        assert(t != "database"@ && t != "db"@) by {
            assert(t[0] != 'd' || (t[1] != 'a' && t.len() != 2));
        }
    }
    if c != SkillCategory::ErrorHandling {
        assert(t != "error_handling"@ && t != "errors"@) by {
            assert(t[0] != 'e');
        }
    }
}

// ---------------------------------------------------------------------------
// Patterns

/// Types of patterns.
#[derive(Debug, Clone, Copy, PartialEq, Eq, Structural)]
pub enum PatternType {
    /// Code template that can be adapted
    CodeTemplate,
    /// A technique or approach (not necessarily code)
    Technique,
    /// Architecture or design pattern
    ArchitecturePattern,
    /// Command or script template
    CommandTemplate,
    /// Configuration pattern
    ConfigPattern,
    /// Workflow or process pattern
    WorkflowPattern,
}

/// The name of a pattern type.
pub open spec fn pattern_type_text(p: PatternType) -> Seq<char> {
    match p {
        PatternType::CodeTemplate => "code_template"@,
        PatternType::Technique => "technique"@,
        PatternType::ArchitecturePattern => "architecture_pattern"@,
        PatternType::CommandTemplate => "command_template"@,
        PatternType::ConfigPattern => "config_pattern"@,
        PatternType::WorkflowPattern => "workflow_pattern"@,
    }
}

impl PatternType {
    /// Get the string representation.
    pub fn as_str(&self) -> (r: &'static str)
        ensures
            r@ == pattern_type_text(*self),
    {
        match self {
            PatternType::CodeTemplate => "code_template",
            PatternType::Technique => "technique",
            PatternType::ArchitecturePattern => "architecture_pattern",
            PatternType::CommandTemplate => "command_template",
            PatternType::ConfigPattern => "config_pattern",
            PatternType::WorkflowPattern => "workflow_pattern",
        }
    }
}

/// A variable or placeholder in a pattern template.
#[derive(Debug, Clone)]
pub struct PatternVariable {
    /// Name of the variable
    pub name: String,
    /// Description of what it represents
    pub description: String,
    /// Example value
    pub example: Option<String>,
    /// Whether the variable is required
    pub required: bool,
}

impl PatternVariable {
    /// Create a new required variable.
    pub fn required(name: &str, description: &str) -> (r: PatternVariable)
        ensures
            r.name@ == name@,
            r.description@ == description@,
            r.example.is_none(),
            r.required,
    {
        PatternVariable { name: owned(name), description: owned(description), example: None, required: true }
    }

    /// Create a new optional variable.
    pub fn optional(name: &str, description: &str) -> (r: PatternVariable)
        ensures
            r.name@ == name@,
            r.description@ == description@,
            r.example.is_none(),
            !r.required,
    {
        PatternVariable { name: owned(name), description: owned(description), example: None, required: false }
    }

    /// Add an example value.
    pub fn with_example(self, example: &str) -> (r: PatternVariable)
        ensures
            r.name == self.name,
            r.description == self.description,
            r.required == self.required,
            r.example matches Some(e) && e@ == example@,
    {
        PatternVariable { example: Some(owned(example)), ..self }
    }
}

/// The reusable pattern or template from a skill.
#[derive(Debug, Clone)]
pub struct SkillPattern {
    /// The pattern type
    pub pattern_type: PatternType,
    /// Template or example code/text that can be adapted
    pub template: String,
    /// Variables or placeholders in the template
    pub variables: Vec<PatternVariable>,
    /// Conditions when this pattern is applicable
    pub applicability: Vec<String>,
    /// Known limitations or edge cases
    pub limitations: Vec<String>,
}

impl SkillPattern {
    /// A pattern of the given type and template, with no variables,
    /// conditions or limitations.
    pub open spec fn fresh(&self, t: PatternType, template: Seq<char>) -> bool {
        &&& self.pattern_type == t
        &&& self.template@ == template
        &&& self.variables@.len() == 0
        &&& self.applicability@.len() == 0
        &&& self.limitations@.len() == 0
    }

    /// Create a new code pattern.
    pub fn code(template: &str) -> (r: SkillPattern)
        ensures
            r.fresh(PatternType::CodeTemplate, template@),
    {
        SkillPattern {
            pattern_type: PatternType::CodeTemplate,
            template: owned(template),
            variables: Vec::new(),
            applicability: Vec::new(),
            limitations: Vec::new(),
        }
    }

    /// Create a new technique pattern.
    pub fn technique(description: &str) -> (r: SkillPattern)
        ensures
            r.fresh(PatternType::Technique, description@),
    {
        SkillPattern {
            pattern_type: PatternType::Technique,
            template: owned(description),
            variables: Vec::new(),
            applicability: Vec::new(),
            limitations: Vec::new(),
        }
    }

    /// Create a new architecture pattern.
    pub fn architecture(description: &str) -> (r: SkillPattern)
        ensures
            r.fresh(PatternType::ArchitecturePattern, description@),
    {
        SkillPattern {
            pattern_type: PatternType::ArchitecturePattern,
            template: owned(description),
            variables: Vec::new(),
            applicability: Vec::new(),
            limitations: Vec::new(),
        }
    }

    /// Add variables to the pattern.
    pub fn with_variables(self, variables: Vec<PatternVariable>) -> (r: SkillPattern)
        ensures
            r == (SkillPattern { variables, ..self }),
    {
        SkillPattern { variables, ..self }
    }

    /// Add applicability conditions.
    pub fn with_applicability(self, conditions: Vec<String>) -> (r: SkillPattern)
        ensures
            r == (SkillPattern { applicability: conditions, ..self }),
    {
        SkillPattern { applicability: conditions, ..self }
    }

    /// Add known limitations.
    pub fn with_limitations(self, limitations: Vec<String>) -> (r: SkillPattern)
        ensures
            r == (SkillPattern { limitations, ..self }),
    {
        SkillPattern { limitations, ..self }
    }
}

// ---------------------------------------------------------------------------
// Sources

/// Source context for where a skill was learned.
#[derive(Debug, Clone)]
pub struct SkillSource {
    /// Project ID where the skill was extracted
    pub project_id: Option<String>,
    /// Feature ID that produced the skill
    pub feature_id: Option<String>,
    /// Agent type that executed the task
    pub agent_type: Option<String>,
    /// Original task description
    pub original_task: Option<String>,
    /// Model used for extraction
    pub model_used: Option<String>,
    /// Tokens used during extraction
    pub tokens_used: Option<u32>,
}

impl Default for SkillSource {
    /// A source that records nothing.
    fn default() -> (r: Self)
        ensures
            r.project_id.is_none(),
            r.feature_id.is_none(),
            r.agent_type.is_none(),
            r.original_task.is_none(),
            r.model_used.is_none(),
            r.tokens_used.is_none(),
    {
        SkillSource {
            project_id: None,
            feature_id: None,
            agent_type: None,
            original_task: None,
            model_used: None,
            tokens_used: None,
        }
    }
}

impl SkillSource {
    /// Create a new skill source that records nothing.
    pub fn new() -> (r: SkillSource)
        ensures
            r.project_id.is_none(),
            r.feature_id.is_none(),
            r.agent_type.is_none(),
            r.original_task.is_none(),
            r.model_used.is_none(),
            r.tokens_used.is_none(),
    {
        SkillSource::default()
    }

    /// Set the project ID.
    pub fn with_project(self, project_id: &str) -> (r: SkillSource)
        ensures
            r.project_id matches Some(p) && p@ == project_id@,
            r.feature_id == self.feature_id && r.agent_type == self.agent_type,
            r.original_task == self.original_task && r.model_used == self.model_used,
            r.tokens_used == self.tokens_used,
    {
        SkillSource { project_id: Some(owned(project_id)), ..self }
    }

    /// Set the feature ID.
    pub fn with_feature(self, feature_id: &str) -> (r: SkillSource)
        ensures
            r.feature_id matches Some(p) && p@ == feature_id@,
            r.project_id == self.project_id && r.agent_type == self.agent_type,
            r.original_task == self.original_task && r.model_used == self.model_used,
            r.tokens_used == self.tokens_used,
    {
        SkillSource { feature_id: Some(owned(feature_id)), ..self }
    }

    /// Set the agent type.
    pub fn with_agent(self, agent_type: &str) -> (r: SkillSource)
        ensures
            r.agent_type matches Some(p) && p@ == agent_type@,
            r.project_id == self.project_id && r.feature_id == self.feature_id,
            r.original_task == self.original_task && r.model_used == self.model_used,
            r.tokens_used == self.tokens_used,
    {
        SkillSource { agent_type: Some(owned(agent_type)), ..self }
    }

    /// Set the original task.
    pub fn with_task(self, task: &str) -> (r: SkillSource)
        ensures
            r.original_task matches Some(p) && p@ == task@,
            r.project_id == self.project_id && r.feature_id == self.feature_id,
            r.agent_type == self.agent_type && r.model_used == self.model_used,
            r.tokens_used == self.tokens_used,
    {
        SkillSource { original_task: Some(owned(task)), ..self }
    }

    /// Set the model used.
    pub fn with_model(self, model: &str) -> (r: SkillSource)
        ensures
            r.model_used matches Some(p) && p@ == model@,
            r.project_id == self.project_id && r.feature_id == self.feature_id,
            r.agent_type == self.agent_type && r.original_task == self.original_task,
            r.tokens_used == self.tokens_used,
    {
        SkillSource { model_used: Some(owned(model)), ..self }
    }

    /// Set tokens used.
    pub fn with_tokens(self, tokens: u32) -> (r: SkillSource)
        ensures
            r == (SkillSource { tokens_used: Some(tokens), ..self }),
    {
        SkillSource { tokens_used: Some(tokens), ..self }
    }
}

// ---------------------------------------------------------------------------
// Confidence

/// Confidence level for a skill, ordered from low to high.
#[derive(Debug, Clone, Copy, PartialEq, Eq, Ord, Structural)]
pub enum SkillConfidence {
    /// Low confidence - skill may not be widely applicable
    Low,
    /// Medium confidence - skill works in tested scenarios
    Medium,
    /// High confidence - skill has been validated multiple times
    High,
}

impl PartialOrd for SkillConfidence {
    /// Confidence levels compare as their ranking scores.
    fn partial_cmp(&self, other: &Self) -> (r: Option<Ordering>) {
        let a = self.score();
        let b = other.score();
        if a < b {
            Some(Ordering::Less)
        } else if a == b {
            Some(Ordering::Equal)
        } else {
            Some(Ordering::Greater)
        }
    }
}

impl PartialOrdSpecImpl for SkillConfidence {
    open spec fn obeys_partial_cmp_spec() -> bool {
        true
    }

    open spec fn partial_cmp_spec(&self, other: &Self) -> Option<Ordering> {
        if confidence_score(*self) < confidence_score(*other) {
            Some(Ordering::Less)
        } else if confidence_score(*self) == confidence_score(*other) {
            Some(Ordering::Equal)
        } else {
            Some(Ordering::Greater)
        }
    }
}

/// Confidence levels are ordered as their scores, which lie in `1..=3`: one
/// level is below another exactly when its score is lower, and equal to it
/// exactly when the scores are equal.
pub proof fn lemma_confidence_order_is_score_order(c1: SkillConfidence, c2: SkillConfidence)
    ensures
        1 <= confidence_score(c1) <= 3,
        (vstd::std_specs::cmp::PartialOrdSpec::partial_cmp_spec(&c1, &c2) == Some(Ordering::Less)) == (confidence_score(c1) < confidence_score(c2)),
        (vstd::std_specs::cmp::PartialOrdSpec::partial_cmp_spec(&c1, &c2) == Some(Ordering::Equal)) == (c1 == c2),
        (vstd::std_specs::cmp::PartialOrdSpec::partial_cmp_spec(&c1, &c2) == Some(Ordering::Greater)) == (confidence_score(c1) > confidence_score(c2)),
        confidence_score(SkillConfidence::Low) < confidence_score(SkillConfidence::Medium) < confidence_score(
            SkillConfidence::High,
        ),
{
}

/// The name of a confidence level.
pub open spec fn confidence_text(c: SkillConfidence) -> Seq<char> {
    match c {
        SkillConfidence::Low => "low"@,
        SkillConfidence::Medium => "medium"@,
        SkillConfidence::High => "high"@,
    }
}

/// The confidence a lower-case name stands for; any other text is `Medium`.
pub open spec fn confidence_of_text(s: Seq<char>) -> SkillConfidence {
    if s == "low"@ {
        SkillConfidence::Low
    } else if s == "high"@ {
        SkillConfidence::High
    } else {
        SkillConfidence::Medium
    }
}

/// The ranking score of a confidence level.
pub open spec fn confidence_score(c: SkillConfidence) -> u8 {
    match c {
        SkillConfidence::Low => 1,
        SkillConfidence::Medium => 2,
        SkillConfidence::High => 3,
    }
}

impl SkillConfidence {
    /// Get the string representation.
    pub fn as_str(&self) -> (r: &'static str)
        ensures
            r@ == confidence_text(*self),
    {
        match self {
            SkillConfidence::Low => "low",
            SkillConfidence::Medium => "medium",
            SkillConfidence::High => "high",
        }
    }

    /// Parse from string, case-insensitively; unknown names are `Medium`.
    pub fn from_str(s: &str) -> (r: SkillConfidence)
        ensures
            r == confidence_of_text(lowercase_of(s@)),
            is_ascii_text(s@) ==> r == confidence_of_text(s@.map_values(|c: char| ascii_lower(c))),
    {
        let lower = to_lowercase(s);
        if str_eq(lower.as_str(), "low") {
            SkillConfidence::Low
        } else if str_eq(lower.as_str(), "high") {
            SkillConfidence::High
        } else {
            SkillConfidence::Medium
        }
    }

    /// Get a numeric score for ranking.
    pub fn score(&self) -> (r: u8)
        ensures
            r == confidence_score(*self),
    {
        match self {
            SkillConfidence::Low => 1,
            SkillConfidence::Medium => 2,
            SkillConfidence::High => 3,
        }
    }

    /// Whether this level ranks below `other`, by score.
    pub fn ranks_below(&self, other: &SkillConfidence) -> (r: bool)
        ensures
            r == (confidence_score(*self) < confidence_score(*other)),
    {
        self.score() < other.score()
    }

    /// The name of the level, owned.
    pub fn to_string(&self) -> (r: String)
        ensures
            r@ == confidence_text(*self),
    {
        owned(self.as_str())
    }
}

/// Every confidence level's name reads back as that level.
pub proof fn lemma_confidence_round_trip(c: SkillConfidence)
    ensures
        confidence_of_text(confidence_text(c)) == c,
{
    reveal_strlit("low");
    reveal_strlit("high");
    reveal_strlit("medium");
    let t = confidence_text(c);
    if c != SkillConfidence::Low {
        assert(t[0] != 'l');
    }
    if c != SkillConfidence::High {
        assert(t[0] != 'h');
    }
}

// ---------------------------------------------------------------------------
// Usage

/// Usage statistics for a skill.
#[derive(Debug, Clone, Copy, PartialEq, Eq, Structural)]
pub struct SkillUsageStats {
    /// Total times the skill has been used
    pub times_used: u32,
    /// Successful applications
    pub success_count: u32,
    /// Failed applications
    pub failure_count: u32,
    /// When the skill was last used, in microseconds since the Unix epoch
    pub last_used_at: Option<i64>,
}

impl Default for SkillUsageStats {
    /// Statistics of a skill never used.
    fn default() -> (r: Self)
        ensures
            r == (SkillUsageStats { times_used: 0, success_count: 0, failure_count: 0, last_used_at: None }),
    {
        SkillUsageStats { times_used: 0, success_count: 0, failure_count: 0, last_used_at: None }
    }
}

/// The confidence usage earns: unchanged before three uses; then high at a
/// success rate of at least 90%, medium at 70%, low below.
pub open spec fn earned_confidence(current: SkillConfidence, stats: SkillUsageStats) -> SkillConfidence {
    if stats.times_used < 3 {
        current
    } else if 10 * (stats.success_count as int) >= 9 * (stats.times_used as int) {
        SkillConfidence::High
    } else if 10 * (stats.success_count as int) >= 7 * (stats.times_used as int) {
        SkillConfidence::Medium
    } else {
        SkillConfidence::Low
    }
}

// ---------------------------------------------------------------------------
// Skills

/// Additional metadata for a skill.
#[derive(Debug, Clone)]
pub struct SkillMetadata {
    /// Programming language this skill applies to (if specific)
    pub language: Option<String>,
    /// Framework this skill applies to (if specific)
    pub framework: Option<String>,
    /// Related skills (by ID)
    pub related_skills: Vec<String>,
    /// Prerequisites (skills needed before using this one)
    pub prerequisites: Vec<String>,
    /// Version of the skill (for updates)
    pub version: u32,
    /// Whether this skill is deprecated
    pub deprecated: bool,
    /// Reason for deprecation
    pub deprecation_reason: Option<String>,
    /// Custom key-value metadata, as JSON text (`null` where there is none)
    pub custom: String,
}

impl SkillMetadata {
    /// Create new, empty metadata.
    pub fn new() -> (r: SkillMetadata)
        ensures
            r.language.is_none() && r.framework.is_none(),
            r.related_skills@.len() == 0 && r.prerequisites@.len() == 0,
            r.version == 0 && !r.deprecated && r.deprecation_reason.is_none(),
            r.custom@ == "null"@,
    {
        SkillMetadata {
            language: None,
            framework: None,
            related_skills: Vec::new(),
            prerequisites: Vec::new(),
            version: 0,
            deprecated: false,
            deprecation_reason: None,
            custom: owned("null"),
        }
    }

    /// Set the programming language.
    pub fn with_language(self, language: &str) -> (r: SkillMetadata)
        ensures
            r.language matches Some(l) && l@ == language@,
            r.framework == self.framework && r.related_skills == self.related_skills,
            r.prerequisites == self.prerequisites && r.version == self.version,
            r.deprecated == self.deprecated && r.deprecation_reason == self.deprecation_reason,
            r.custom == self.custom,
    {
        SkillMetadata { language: Some(owned(language)), ..self }
    }

    /// Set the framework.
    pub fn with_framework(self, framework: &str) -> (r: SkillMetadata)
        ensures
            r.framework matches Some(l) && l@ == framework@,
            r.language == self.language && r.related_skills == self.related_skills,
            r.prerequisites == self.prerequisites && r.version == self.version,
            r.deprecated == self.deprecated && r.deprecation_reason == self.deprecation_reason,
            r.custom == self.custom,
    {
        SkillMetadata { framework: Some(owned(framework)), ..self }
    }

    /// Add related skills.
    pub fn with_related(self, skill_ids: Vec<String>) -> (r: SkillMetadata)
        ensures
            r == (SkillMetadata { related_skills: skill_ids, ..self }),
    {
        SkillMetadata { related_skills: skill_ids, ..self }
    }

    /// Add prerequisites.
    pub fn with_prerequisites(self, skill_ids: Vec<String>) -> (r: SkillMetadata)
        ensures
            r == (SkillMetadata { prerequisites: skill_ids, ..self }),
    {
        SkillMetadata { prerequisites: skill_ids, ..self }
    }

    /// Mark as deprecated, with the reason.
    pub fn deprecated(self, reason: &str) -> (r: SkillMetadata)
        ensures
            r.deprecated,
            r.deprecation_reason matches Some(m) && m@ == reason@,
            r.language == self.language && r.framework == self.framework,
            r.related_skills == self.related_skills && r.prerequisites == self.prerequisites,
            r.version == self.version && r.custom == self.custom,
    {
        SkillMetadata { deprecated: true, deprecation_reason: Some(owned(reason)), ..self }
    }
}

/// A learned skill extracted from agent interactions. Times are
/// microseconds since the Unix epoch.
#[derive(Debug, Clone)]
pub struct LearnedSkill {
    /// Unique identifier for the skill
    pub id: String,
    /// Human-readable name for the skill
    pub name: String,
    /// Brief description of what the skill does
    pub description: String,
    /// The skill category for organization
    pub category: SkillCategory,
    /// The pattern or template that can be reused
    pub pattern: SkillPattern,
    /// How the skill was learned (source context)
    pub source: SkillSource,
    /// Confidence level in the skill's applicability
    pub confidence: SkillConfidence,
    /// Tags for searching and filtering
    pub tags: Vec<String>,
    /// Usage statistics
    pub usage_stats: SkillUsageStats,
    /// Additional metadata
    pub metadata: SkillMetadata,
    /// When the skill was created
    pub created_at: i64,
    /// When the skill was last updated
    pub updated_at: i64,
}

/// Whether some tag, lower-cased, contains the lower-cased query.
pub open spec fn some_tag_contains(tags: Seq<String>, query: Seq<char>) -> bool {
    exists|i: int| 0 <= i < tags.len() && contains_text(lowercase_of(#[trigger] tags[i]@), lowercase_of(query))
}

/// Whether a lower-cased text contains the lower-cased query.
pub open spec fn contains_ci(text: Seq<char>, query: Seq<char>) -> bool {
    contains_text(lowercase_of(text), lowercase_of(query))
}

/// Whether some tag contains, case-insensitively, one of the queries.
fn any_tag_contains(tags: &Vec<String>, query: &str) -> (r: bool)
    ensures
        r == some_tag_contains(tags@, query@),
{
    let q = to_lowercase(query);
    let mut i: usize = 0;
    while i < tags.len()
        invariant
            i <= tags@.len(),
            q@ == lowercase_of(query@),
            forall|k: int| 0 <= k < i ==> !contains_text(lowercase_of(#[trigger] tags@[k]@), lowercase_of(query@)),
        decreases tags@.len() - i,
    {
        let t = to_lowercase(tags[i].as_str());
        if str_contains(t.as_str(), q.as_str()) {
            return true;
        }
        i = i + 1;
    }
    false
}

/// Case-insensitive containment.
fn contains_ignoring_case(text: &str, query: &str) -> (r: bool)
    ensures
        r == contains_ci(text@, query@),
{
    let t = to_lowercase(text);
    let q = to_lowercase(query);
    str_contains(t.as_str(), q.as_str())
}

impl LearnedSkill {
    /// Create a new learned skill with the given name and description: a
    /// fresh identifier, medium confidence, no tags, no usage, empty source
    /// and metadata, created and updated now.
    pub fn new(name: &str, description: &str, category: SkillCategory, pattern: SkillPattern) -> (r: LearnedSkill)
        ensures
            exists|v: u128| r.id@ == uuid_text(v),
            r.name@ == name@,
            r.description@ == description@,
            r.category == category,
            r.pattern == pattern,
            r.confidence == SkillConfidence::Medium,
            r.tags@.len() == 0,
            r.usage_stats == (SkillUsageStats { times_used: 0, success_count: 0, failure_count: 0, last_used_at: None }),
            r.created_at == r.updated_at,
    {
        let now = now_micros();
        let id = new_v4();
        LearnedSkill {
            id: id_to_string(id),
            name: owned(name),
            description: owned(description),
            category,
            pattern,
            source: SkillSource::default(),
            confidence: SkillConfidence::Medium,
            tags: Vec::new(),
            usage_stats: SkillUsageStats::default(),
            metadata: SkillMetadata::new(),
            created_at: now,
            updated_at: now,
        }
    }

    /// Set the source context for this skill.
    pub fn with_source(self, source: SkillSource) -> (r: LearnedSkill)
        ensures
            r == (LearnedSkill { source, ..self }),
    {
        LearnedSkill { source, ..self }
    }

    /// Set the confidence level.
    pub fn with_confidence(self, confidence: SkillConfidence) -> (r: LearnedSkill)
        ensures
            r == (LearnedSkill { confidence, ..self }),
    {
        LearnedSkill { confidence, ..self }
    }

    /// Add tags to the skill.
    pub fn with_tags(self, tags: Vec<String>) -> (r: LearnedSkill)
        ensures
            r == (LearnedSkill { tags, ..self }),
    {
        LearnedSkill { tags, ..self }
    }

    /// Add metadata.
    pub fn with_metadata(self, metadata: SkillMetadata) -> (r: LearnedSkill)
        ensures
            r == (LearnedSkill { metadata, ..self }),
    {
        LearnedSkill { metadata, ..self }
    }

    /// Record that the skill was used: one more use, counted as a success
    /// or a failure, stamped now, and the confidence recalculated.
    pub fn record_usage(&mut self, success: bool)
        requires
            old(self).usage_stats.times_used < u32::MAX,
            success ==> old(self).usage_stats.success_count < u32::MAX,
            !success ==> old(self).usage_stats.failure_count < u32::MAX,
        ensures
            final(self).usage_stats.times_used == old(self).usage_stats.times_used + 1,
            final(self).usage_stats.success_count == old(self).usage_stats.success_count + (if success { 1int } else { 0 }),
            final(self).usage_stats.failure_count == old(self).usage_stats.failure_count + (if success { 0int } else { 1 }),
            final(self).usage_stats.last_used_at.is_some(),
            final(self).confidence == earned_confidence(old(self).confidence, final(self).usage_stats),
            final(self).id == old(self).id && final(self).name == old(self).name,
            final(self).description == old(self).description && final(self).category == old(self).category,
            final(self).pattern == old(self).pattern && final(self).source == old(self).source,
            final(self).tags == old(self).tags && final(self).metadata == old(self).metadata,
            final(self).created_at == old(self).created_at,
    {
        self.usage_stats.times_used = self.usage_stats.times_used + 1;
        if success {
            self.usage_stats.success_count = self.usage_stats.success_count + 1;
        } else {
            self.usage_stats.failure_count = self.usage_stats.failure_count + 1;
        }
        let now = now_micros();
        self.usage_stats.last_used_at = Some(now);
        self.updated_at = now_micros();
        self.confidence = self.calculate_confidence();
    }

    /// Calculate the confidence that the usage statistics earn.
    pub fn calculate_confidence(&self) -> (r: SkillConfidence)
        ensures
            r == earned_confidence(self.confidence, self.usage_stats),
    {
        let s = &self.usage_stats;
        if s.times_used < 3 {
            return self.confidence;
        }
        let succ = s.success_count as u64 * 10;
        if succ >= s.times_used as u64 * 9 {
            SkillConfidence::High
        } else if succ >= s.times_used as u64 * 7 {
            SkillConfidence::Medium
        } else {
            SkillConfidence::Low
        }
    }

    /// Check if this skill matches given tags: some query tag is contained,
    /// ignoring case, in some tag of the skill.
    pub fn matches_tags(&self, query_tags: &Vec<String>) -> (r: bool)
        ensures
            r == exists|i: int| 0 <= i < query_tags@.len() && some_tag_contains(self.tags@, #[trigger] query_tags@[i]@),
    {
        let mut i: usize = 0;
        while i < query_tags.len()
            invariant
                i <= query_tags@.len(),
                forall|k: int| 0 <= k < i ==> !some_tag_contains(self.tags@, #[trigger] query_tags@[k]@),
            decreases query_tags@.len() - i,
        {
            if any_tag_contains(&self.tags, query_tags[i].as_str()) {
                return true;
            }
            i = i + 1;
        }
        false
    }

    /// Check if this skill matches a text query: the query is contained,
    /// ignoring case, in the name, the description, a tag or the category name.
    pub fn matches_query(&self, query: &str) -> (r: bool)
        ensures
            r == (contains_ci(self.name@, query@) || contains_ci(self.description@, query@) || some_tag_contains(
                self.tags@,
                query@,
            ) || contains_ci(category_text(self.category), query@)),
    {
        contains_ignoring_case(self.name.as_str(), query) || contains_ignoring_case(self.description.as_str(), query)
            || any_tag_contains(&self.tags, query) || contains_ignoring_case(self.category.as_str(), query)
    }
}

/// Recording a use never loses count: after `record_usage` the number of
/// uses still equals the successes plus the failures, if it did before.
pub proof fn lemma_usage_counts_balance(before: SkillUsageStats, after: SkillUsageStats, success: bool)
    requires
        before.times_used == before.success_count + before.failure_count,
        after.times_used == before.times_used + 1,
        after.success_count == before.success_count + (if success { 1int } else { 0 }),
        after.failure_count == before.failure_count + (if success { 0int } else { 1 }),
    ensures
        after.times_used == after.success_count + after.failure_count,
{
}

/// Statistics about stored skills.
#[derive(Debug, Clone)]
pub struct SkillStats {
    /// Total number of skills
    pub total_skills: u64,
    /// Total times skills have been used
    pub total_uses: u64,
    /// Number of high-confidence skills
    pub high_confidence_skills: u64,
    /// Skills grouped by category
    pub skills_by_category: Vec<(SkillCategory, u64)>,
}

} // verus!

//! Stored skills: the row a skill is written as, and the skill read back
//! from a row. The store keeps names as text and counts as signed 32-bit
//! integers; the reader has already decoded the JSON columns and the times.

use vstd::prelude::*;
use crate::skills::extractor::{pattern_type_from_name, pattern_type_of_name};
use crate::skills::types::{
    category_of_text, category_text, confidence_of_text, confidence_text, lemma_category_round_trip,
    pattern_type_text, LearnedSkill, PatternType, PatternVariable, SkillCategory, SkillConfidence, SkillMetadata,
    SkillPattern, SkillSource, SkillUsageStats,
};
use crate::text::{ascii_lower, is_ascii_text, lemma_lower_text_is_its_lower_case, lowercase_of, owned};

verus! {

/// A stored skill, one column per field. Times are microseconds since the
/// Unix epoch.
#[derive(Debug, Clone)]
pub struct SkillRow {
    pub id: String,
    pub name: String,
    pub description: String,
    pub category: String,
    pub pattern_type: String,
    pub pattern_template: String,
    pub pattern_variables: Vec<PatternVariable>,
    pub pattern_applicability: Vec<String>,
    pub pattern_limitations: Vec<String>,
    pub source_project_id: Option<String>,
    pub source_feature_id: Option<String>,
    pub source_agent_type: Option<String>,
    pub source_original_task: Option<String>,
    pub source_model_used: Option<String>,
    pub source_tokens_used: Option<i32>,
    pub confidence: String,
    pub tags: Vec<String>,
    pub times_used: i32,
    pub success_count: i32,
    pub failure_count: i32,
    pub last_used_at: Option<i64>,
    pub metadata: SkillMetadata,
    pub created_at: i64,
    pub updated_at: i64,
}

/// The category stored text reads back as: its lower case names it, and
/// for ASCII text that lower case is the ASCII one.
pub open spec fn category_read(t: Seq<char>) -> SkillCategory {
    if is_ascii_text(t) {
        category_of_text(t.map_values(|c: char| ascii_lower(c)))
    } else {
        category_of_text(lowercase_of(t))
    }
}

/// The confidence stored text reads back as.
pub open spec fn confidence_read(t: Seq<char>) -> SkillConfidence {
    if is_ascii_text(t) {
        confidence_of_text(t.map_values(|c: char| ascii_lower(c)))
    } else {
        confidence_of_text(lowercase_of(t))
    }
}

/// `row` is the row that `skill` is written as: names as their text,
/// counts as signed 32-bit integers, everything else as it is.
pub open spec fn row_describes(row: SkillRow, skill: LearnedSkill) -> bool {
    &&& row.id == skill.id && row.name == skill.name && row.description == skill.description
    &&& row.category@ == category_text(skill.category)
    &&& row.pattern_type@ == pattern_type_text(skill.pattern.pattern_type)
    &&& row.pattern_template == skill.pattern.template
    &&& row.pattern_variables == skill.pattern.variables
    &&& row.pattern_applicability == skill.pattern.applicability
    &&& row.pattern_limitations == skill.pattern.limitations
    &&& row.source_project_id == skill.source.project_id
    &&& row.source_feature_id == skill.source.feature_id
    &&& row.source_agent_type == skill.source.agent_type
    &&& row.source_original_task == skill.source.original_task
    &&& row.source_model_used == skill.source.model_used
    &&& row.source_tokens_used == (match skill.source.tokens_used {
        Some(t) => Some(t as i32),
        None => None,
    })
    &&& row.confidence@ == confidence_text(skill.confidence)
    &&& row.tags == skill.tags
    &&& row.times_used == skill.usage_stats.times_used as i32
    &&& row.success_count == skill.usage_stats.success_count as i32
    &&& row.failure_count == skill.usage_stats.failure_count as i32
    &&& row.last_used_at == skill.usage_stats.last_used_at
    &&& row.metadata == skill.metadata
    &&& row.created_at == skill.created_at && row.updated_at == skill.updated_at
}

/// `skill` is what `row` reads back as: names parsed (unknown ones as the
/// defaults), counts reinterpreted as unsigned, everything else as it is.
pub open spec fn read_from_row(row: SkillRow, skill: LearnedSkill) -> bool {
    &&& skill.id == row.id && skill.name == row.name && skill.description == row.description
    &&& skill.category == category_read(row.category@)
    &&& skill.pattern.pattern_type == pattern_type_of_name(row.pattern_type@)
    &&& skill.pattern.template == row.pattern_template
    &&& skill.pattern.variables == row.pattern_variables
    &&& skill.pattern.applicability == row.pattern_applicability
    &&& skill.pattern.limitations == row.pattern_limitations
    &&& skill.source.project_id == row.source_project_id
    &&& skill.source.feature_id == row.source_feature_id
    &&& skill.source.agent_type == row.source_agent_type
    &&& skill.source.original_task == row.source_original_task
    &&& skill.source.model_used == row.source_model_used
    &&& skill.source.tokens_used == (match row.source_tokens_used {
        Some(t) => Some(t as u32),
        None => None,
    })
    &&& skill.confidence == confidence_read(row.confidence@)
    &&& skill.tags == row.tags
    &&& skill.usage_stats.times_used == row.times_used as u32
    &&& skill.usage_stats.success_count == row.success_count as u32
    &&& skill.usage_stats.failure_count == row.failure_count as u32
    &&& skill.usage_stats.last_used_at == row.last_used_at
    &&& skill.metadata == row.metadata
    &&& skill.created_at == row.created_at && skill.updated_at == row.updated_at
}

impl SkillRow {
    /// The row a skill is written as.
    pub fn from_skill(skill: LearnedSkill) -> (r: SkillRow)
        ensures
            row_describes(r, skill),
    {
        let source_tokens_used = match skill.source.tokens_used {
            Some(t) => Some(t as i32),
            None => None,
        };
        SkillRow {
            category: owned(skill.category.as_str()),
            pattern_type: owned(skill.pattern.pattern_type.as_str()),
            confidence: owned(skill.confidence.as_str()),
            source_tokens_used,
            times_used: skill.usage_stats.times_used as i32,
            success_count: skill.usage_stats.success_count as i32,
            failure_count: skill.usage_stats.failure_count as i32,
            last_used_at: skill.usage_stats.last_used_at,
            id: skill.id,
            name: skill.name,
            description: skill.description,
            pattern_template: skill.pattern.template,
            pattern_variables: skill.pattern.variables,
            pattern_applicability: skill.pattern.applicability,
            pattern_limitations: skill.pattern.limitations,
            source_project_id: skill.source.project_id,
            source_feature_id: skill.source.feature_id,
            source_agent_type: skill.source.agent_type,
            source_original_task: skill.source.original_task,
            source_model_used: skill.source.model_used,
            tags: skill.tags,
            metadata: skill.metadata,
            created_at: skill.created_at,
            updated_at: skill.updated_at,
        }
    }

    /// Convert a stored row into a learned skill: the category and
    /// confidence are read case-insensitively (unknown ones as `Other` and
    /// `Medium`), an unknown pattern type as a code template.
    pub fn into_learned_skill(self) -> (r: LearnedSkill)
        ensures
            read_from_row(self, r),
    {
        let category = SkillCategory::from_str(self.category.as_str());
        let pattern_type = pattern_type_from_name(self.pattern_type.as_str());
        let confidence = SkillConfidence::from_str(self.confidence.as_str());
        let tokens_used = match self.source_tokens_used {
            Some(t) => Some(t as u32),
            None => None,
        };
        LearnedSkill {
            id: self.id,
            name: self.name,
            description: self.description,
            category,
            pattern: SkillPattern {
                pattern_type,
                template: self.pattern_template,
                variables: self.pattern_variables,
                applicability: self.pattern_applicability,
                limitations: self.pattern_limitations,
            },
            source: SkillSource {
                project_id: self.source_project_id,
                feature_id: self.source_feature_id,
                agent_type: self.source_agent_type,
                original_task: self.source_original_task,
                model_used: self.source_model_used,
                tokens_used,
            },
            confidence,
            tags: self.tags,
            usage_stats: SkillUsageStats {
                times_used: self.times_used as u32,
                success_count: self.success_count as u32,
                failure_count: self.failure_count as u32,
                last_used_at: self.last_used_at,
            },
            metadata: self.metadata,
            created_at: self.created_at,
            updated_at: self.updated_at,
        }
    }
}

/// The name of a category reads back as that category.
proof fn lemma_category_reads_back(c: SkillCategory)
    ensures
        category_read(category_text(c)) == c,
{
    reveal_strlit("code_generation");
    reveal_strlit("refactoring");
    reveal_strlit("testing");
    reveal_strlit("debugging");
    reveal_strlit("architecture");
    reveal_strlit("performance");
    reveal_strlit("security");
    reveal_strlit("documentation");
    reveal_strlit("api_design");
    reveal_strlit("database");
    reveal_strlit("error_handling");
    reveal_strlit("other");
    lemma_lower_text_is_its_lower_case(category_text(c));
    lemma_category_round_trip(c);
}

/// The name of a confidence level reads back as that level.
proof fn lemma_confidence_reads_back(c: SkillConfidence)
    ensures
        confidence_read(confidence_text(c)) == c,
{
    reveal_strlit("low");
    reveal_strlit("medium");
    reveal_strlit("high");
    lemma_lower_text_is_its_lower_case(confidence_text(c));
}

/// The name of a pattern type reads back as that type.
proof fn lemma_pattern_type_reads_back(p: PatternType)
    ensures
        pattern_type_of_name(pattern_type_text(p)) == p,
{
    reveal_strlit("code_template");
    reveal_strlit("technique");
    reveal_strlit("architecture_pattern");
    reveal_strlit("command_template");
    reveal_strlit("config_pattern");
    reveal_strlit("workflow_pattern");
    assert("technique"@[0] == 't' && "architecture_pattern"@[0] == 'a' && "workflow_pattern"@[0] == 'w');
    assert("code_template"@[0] == 'c' && "command_template"@[0] == 'c' && "config_pattern"@[0] == 'c');
    assert("code_template"@[2] == 'd' && "command_template"@[2] == 'm' && "config_pattern"@[2] == 'n');
}

/// A skill written to the store reads back as the same skill: the row it
/// is written as, read back, gives every field again.
pub proof fn lemma_stored_skill_reads_back(skill: LearnedSkill, row: SkillRow, back: LearnedSkill)
    requires
        row_describes(row, skill),
        read_from_row(row, back),
    ensures
        back == skill,
{
    lemma_category_reads_back(skill.category);
    lemma_confidence_reads_back(skill.confidence);
    lemma_pattern_type_reads_back(skill.pattern.pattern_type);
    let n = skill.usage_stats.times_used;
    let s = skill.usage_stats.success_count;
    let f = skill.usage_stats.failure_count;
    assert(((n as i32) as u32) == n) by (bit_vector);
    assert(((s as i32) as u32) == s) by (bit_vector);
    assert(((f as i32) as u32) == f) by (bit_vector);
    match skill.source.tokens_used {
        Some(t) => {
            assert(((t as i32) as u32) == t) by (bit_vector);
        },
        None => {},
    }
    assert(back.pattern == skill.pattern);
    assert(back.source == skill.source);
    assert(back.usage_stats == skill.usage_stats);
}

} // verus!

use demiarch_core::routing::{RoutingPreference, TaskComplexity};
use demiarch_core::security::{InMemoryMasterKeyRepository, KeyringMasterKeyRepository};
use demiarch_core::skills::entity::{
    error_solution_description, error_solution_name, merge_tags, needs_validation, skill_matches_query,
    technique_description, truncate, SkillContext, SkillExtractionError, SkillSourceInfo, SkillType,
};
use demiarch_core::skills::extraction::{
    error_patterns, DebugEvent, SolutionConfidence, normalize_error, normalize_step, relationship_patterns, tally_keys, technique_patterns, technique_sequences,
    CreatedEntity,
};
use demiarch_core::skills::extractor::{
    braces_in_order, build_extraction_prompt, convert_extracted_skill, detect_language, extract_json_from_response, pattern_type_from_name, truncate_content,
    ExtractedSkill, ExtractedVariable, ExtractionContext,
};
use demiarch_core::skills::rows::SkillRow;
use demiarch_core::skills::search::{build_embedding_text, embedding_text_and_hash};
use demiarch_core::skills::types::{
    LearnedSkill, PatternType, PatternVariable, SkillCategory, SkillConfidence, SkillMetadata, SkillPattern,
    SkillSource,
};

#[test]
fn test_skill_type() {
    assert_eq!(SkillType::ErrorSolution.as_str(), "error_solution");
    assert_eq!(SkillType::Technique.as_str(), "technique");
}

#[test]
fn test_normalize_error() {
    let error = "Error at line 42: Cannot find module './foo'";
    let normalized = normalize_error(error);
    assert!(normalized.contains("error"));
    assert!(normalized.contains("cannot"));
    assert!(normalized.contains("find"));
    assert!(normalized.contains("module"));
}

#[test]
fn normalized_errors_collapse_white_space() {
    assert_eq!(normalize_error("Error at line 42: Cannot find module './foo'"), "error at line 42 cannot find module foo");
    assert_eq!(normalize_error("  A\t\tB -- c  "), "a b c");
    assert_eq!(normalize_error("!!!"), "");
    assert_eq!(normalize_step("Library: serde"), "Library");
    assert_eq!(normalize_step(" Module : x : y"), "Module");
    assert_eq!(normalize_step("no colon"), "no colon");
}

#[test]
fn source_info_keeps_sessions_unique() {
    let mut info = SkillSourceInfo::from_session("s1");
    info.add_session("s2");
    info.add_session("s1");
    assert_eq!(info.session_ids, vec!["s1".to_string(), "s2".to_string()]);
    info.add_project("p");
    info.add_project("p");
    assert_eq!(info.project_ids, vec!["p".to_string()]);
    info.add_event("e");
    info.add_event("e");
    assert_eq!(info.event_ids.len(), 2);
}

#[test]
fn skill_context_defaults_are_empty() {
    let ctx = SkillContext::default();
    assert!(ctx.error_pattern.is_none());
    assert!(ctx.preconditions.is_empty());
}

#[test]
fn skill_texts_are_cut_to_length() {
    assert_eq!(truncate("hello", 10), "hello");
    assert_eq!(truncate("hello", 3), "hel");
    assert_eq!(truncate("héllo", 3), "hé");
    let long = "x".repeat(60);
    assert_eq!(error_solution_name(&long), format!("Fix: {}", "x".repeat(50)));
    assert_eq!(
        error_solution_description("cannot find module 'foo'", "npm install foo"),
        "When encountering 'cannot find module 'foo'', apply: npm install foo"
    );
    assert_eq!(technique_description("Observed 3 times"), "Technique applicable when: Observed 3 times");
}

#[test]
fn merged_tags_have_no_repeats() {
    let mut tags = vec!["tag1".to_string()];
    merge_tags(&mut tags, &vec!["tag2".to_string(), "tag1".to_string(), "tag2".to_string()]);
    assert_eq!(tags, vec!["tag1".to_string(), "tag2".to_string()]);
    assert!(needs_validation(2, 5));
    assert!(needs_validation(5, 1));
    assert!(!needs_validation(5, 3));
}

#[test]
fn skill_queries_ignore_case() {
    let tags = vec!["database".to_string(), "exception".to_string()];
    assert!(skill_matches_query("Error Handling", "Handle database errors", "try {}", &tags, &None, "error"));
    assert!(skill_matches_query("Error Handling", "Handle database errors", "try { } catch (e) { }", &tags, &None, "catch"));
    assert!(!skill_matches_query("Error Handling", "Handle database errors", "try", &tags, &None, "network"));
    assert!(skill_matches_query("a", "b", "c", &vec![], &Some("Network down".to_string()), "network"));
}

#[test]
fn extraction_errors_have_messages() {
    assert_eq!(SkillExtractionError::NoPatterns.message(), "No patterns found in session");
    assert_eq!(SkillExtractionError::Validation("x".to_string()).message(), "Validation failed: x");
}

#[test]
fn keys_are_tallied_in_first_seen_order() {
    let keys: Vec<String> = vec!["b", "a", "b", "c", "b"].into_iter().map(String::from).collect();
    let t = tally_keys(&keys);
    assert_eq!(t.keys, vec!["b".to_string(), "a".to_string(), "c".to_string()]);
    assert_eq!(t.counts, vec![3, 1, 1]);
}

#[test]
fn relationship_patterns_count_kinds() {
    let kinds: Vec<String> = vec!["Uses", "DependsOn", "Uses"].into_iter().map(String::from).collect();
    let patterns = relationship_patterns(&kinds, 2);
    assert_eq!(patterns.len(), 1);
    assert_eq!(patterns[0].name, "Uses Pattern");
    assert_eq!(patterns[0].description, "Architectural pattern using Uses relationship observed 2 times");
    assert_eq!(patterns[0].count, 2);
    assert_eq!(relationship_patterns(&kinds, 1).len(), 2);
}

fn created(kind: &str, name: &str, secs: i64) -> CreatedEntity {
    CreatedEntity { entity_type: kind.to_string(), name: name.to_string(), at_micros: secs * 1_000_000 }
}

#[test]
fn technique_runs_split_after_a_minute() {
    let events = vec![
        created("Library", "a", 0),
        created("Function", "b", 30),
        created("Library", "c", 200),
        created("Library", "d", 300),
        created("Function", "e", 320),
        created("Module", "f", 1000),
    ];
    let seqs = technique_sequences(&events);
    assert_eq!(
        seqs,
        vec![
            vec!["Library: a".to_string(), "Function: b".to_string()],
            vec!["Library: d".to_string(), "Function: e".to_string()],
        ]
    );
    let patterns = technique_patterns(&seqs, 2);
    assert_eq!(patterns.len(), 1);
    assert_eq!(patterns[0].name, "Technique: Library -> Function");
    assert_eq!(patterns[0].count, 2);
    assert_eq!(patterns[0].steps, vec!["Library: a".to_string(), "Function: b".to_string()]);
    assert!(technique_patterns(&seqs, 3).is_empty());
}

#[test]
fn test_extraction_context() {
    let ctx = ExtractionContext::new()
        .with_project("proj-123")
        .with_feature("feat-456")
        .with_agent("Coder")
        .with_task("Implement error handling");

    assert_eq!(ctx.project_id, Some("proj-123".into()));
    assert_eq!(ctx.feature_id, Some("feat-456".into()));
    assert_eq!(ctx.agent_type, Some("Coder".into()));
    assert_eq!(ctx.task_description, Some("Implement error handling".into()));
}

#[test]
fn test_truncate_content() {
    let short = "Short content";
    assert_eq!(truncate_content(short, 100), short);

    let long = "x".repeat(100);
    let truncated = truncate_content(&long, 50);
    assert!(truncated.len() < 100);
    assert!(truncated.contains("[Content truncated]"));
}

#[test]
fn truncated_content_keeps_the_prefix() {
    assert_eq!(truncate_content("abcdef", 3), "abc...\n[Content truncated]");
    assert_eq!(truncate_content("abc", 3), "abc");
}

#[test]
fn test_extract_json_from_response() {
    let response = "Here's the analysis:\n```json\n{\"skills\": []}\n```";
    assert_eq!(extract_json_from_response(response), "{\"skills\": []}");

    let response = "The result is {\"skills\": []} as shown.";
    assert_eq!(extract_json_from_response(response), "{\"skills\": []}");

    let response = "{\"skills\": []}";
    assert_eq!(extract_json_from_response(response), "{\"skills\": []}");
}

#[test]
fn json_in_generic_blocks_and_plain_text() {
    assert_eq!(extract_json_from_response("```\n{\"a\": 1}\n```"), "{\"a\": 1}");
    assert_eq!(extract_json_from_response("```js\n[1]\n```"), "[1]");
    assert_eq!(extract_json_from_response("no json here"), "no json here");
}

#[test]
fn test_detect_language() {
    assert_eq!(detect_language("fn main() -> Result<()> { Ok(()) }"), Some("rust".into()));
    assert_eq!(detect_language("def hello():\n    print('hi')"), Some("python".into()));
    assert_eq!(detect_language("const x: string = 'hello';"), Some("typescript".into()));
    assert_eq!(detect_language("const x = 'hello';"), Some("javascript".into()));
    assert_eq!(detect_language("func main() { package main }"), Some("go".into()));
    assert_eq!(detect_language("plain text"), None);
}

#[test]
fn more_languages_are_detected() {
    assert_eq!(detect_language("PUBLIC CLASS Foo"), Some("java".into()));
    assert_eq!(detect_language("def run\n  puts 1\nend"), Some("ruby".into()));
}

#[test]
fn extracted_skills_become_learned_skills() {
    assert_eq!(pattern_type_from_name("technique"), PatternType::Technique);
    assert_eq!(pattern_type_from_name("whatever"), PatternType::CodeTemplate);
    let extracted = ExtractedSkill {
        name: "Error Wrapping".to_string(),
        description: "Wrap errors with context".to_string(),
        category: "error_handling".to_string(),
        pattern_type: "code_template".to_string(),
        template: "ctx(result)".to_string(),
        variables: vec![ExtractedVariable { name: "x".to_string(), description: "y".to_string(), required: true }],
        applicability: vec!["When using anyhow".to_string()],
        limitations: vec![],
        confidence: SkillConfidence::High,
    };
    let ctx = ExtractionContext::new().with_project("p");
    let skill = convert_extracted_skill(extracted, "fn f() -> u8 { 1 }", &ctx, "model-x");
    assert_eq!(skill.name, "Error Wrapping");
    assert_eq!(skill.category, SkillCategory::ErrorHandling);
    assert_eq!(skill.confidence, SkillConfidence::High);
    assert!(skill.pattern.variables[0].required);
    assert_eq!(skill.source.project_id, Some("p".to_string()));
    assert_eq!(skill.source.feature_id, Some(String::new()));
    assert_eq!(skill.source.agent_type, Some(String::new()));
    assert_eq!(skill.source.original_task, Some(String::new()));
    assert_eq!(skill.source.model_used, Some("model-x".to_string()));
    assert_eq!(skill.metadata.language, Some("rust".to_string()));
}

#[test]
fn test_skill_category_parsing() {
    assert_eq!(SkillCategory::from_str("code_generation"), SkillCategory::CodeGeneration);
    assert_eq!(SkillCategory::from_str("codegen"), SkillCategory::CodeGeneration);
    assert_eq!(SkillCategory::from_str("testing"), SkillCategory::Testing);
    assert_eq!(SkillCategory::from_str("unknown"), SkillCategory::Other);
}

#[test]
fn categories_round_trip_through_their_names() {
    for c in SkillCategory::all() {
        assert_eq!(SkillCategory::from_str(c.as_str()), c);
    }
    assert_eq!(SkillCategory::all().len(), 12);
}

#[test]
fn test_skill_confidence_ordering() {
    assert!(SkillConfidence::Low < SkillConfidence::Medium);
    assert!(SkillConfidence::Medium < SkillConfidence::High);
}

#[test]
fn confidence_order_follows_scores() {
    let all = [SkillConfidence::Low, SkillConfidence::Medium, SkillConfidence::High];
    for a in all {
        assert!((1..=3).contains(&a.score()));
        for b in all {
            assert_eq!(a < b, a.score() < b.score());
            assert_eq!(a.partial_cmp(&b), a.score().partial_cmp(&b.score()));
            assert_eq!(a.cmp(&b), a.score().cmp(&b.score()));
        }
    }
}

#[test]
fn test_skill_metadata() {
    let metadata = SkillMetadata::new()
        .with_language("Rust")
        .with_framework("Actix")
        .with_related(vec!["skill-1".into(), "skill-2".into()])
        .deprecated("Use v2 instead");

    assert_eq!(metadata.language, Some("Rust".into()));
    assert_eq!(metadata.framework, Some("Actix".into()));
    assert!(metadata.deprecated);
    assert_eq!(metadata.deprecation_reason, Some("Use v2 instead".into()));
    assert_eq!(metadata.custom, "null");
}

#[test]
fn confidence_names_and_scores() {
    assert_eq!(SkillConfidence::from_str("HIGH"), SkillConfidence::High);
    assert_eq!(SkillConfidence::from_str("nope"), SkillConfidence::Medium);
    assert_eq!(SkillConfidence::Low.score(), 1);
    assert!(SkillConfidence::Low.ranks_below(&SkillConfidence::High));
}

#[test]
fn test_pattern_variable() {
    let var = PatternVariable::required("type_name", "The name of the type").with_example("MyStruct");

    assert!(var.required);
    assert_eq!(var.example, Some("MyStruct".into()));
}

#[test]
fn test_skill_source() {
    let source = SkillSource::new()
        .with_project("proj-123")
        .with_feature("feat-456")
        .with_agent("Coder")
        .with_task("Implement error handling")
        .with_model("model-3")
        .with_tokens(1500);

    assert_eq!(source.project_id, Some("proj-123".into()));
    assert_eq!(source.feature_id, Some("feat-456".into()));
    assert_eq!(source.agent_type, Some("Coder".into()));
    assert_eq!(source.tokens_used, Some(1500));
}

#[test]
fn test_learned_skill_creation() {
    let skill = LearnedSkill::new(
        "Error Handling Pattern",
        "Wrap operations in Result with context",
        SkillCategory::ErrorHandling,
        SkillPattern::code("fn do_thing() -> Result<T, Error> { ... }"),
    );

    assert!(!skill.id.is_empty());
    assert_eq!(skill.name, "Error Handling Pattern");
    assert_eq!(skill.category, SkillCategory::ErrorHandling);
    assert_eq!(skill.confidence, SkillConfidence::Medium);
}

#[test]
fn test_skill_usage_tracking() {
    let mut skill = LearnedSkill::new("Test Skill", "A test skill", SkillCategory::Testing, SkillPattern::technique("Write tests first"));

    skill.record_usage(true);
    skill.record_usage(true);
    skill.record_usage(false);

    assert_eq!(skill.usage_stats.times_used, 3);
    assert_eq!(skill.usage_stats.success_count, 2);
    assert_eq!(skill.usage_stats.failure_count, 1);
    assert!(skill.usage_stats.last_used_at.is_some());
}

#[test]
fn test_skill_confidence_adjustment() {
    let mut skill = LearnedSkill::new(
        "High Success Skill",
        "A skill with high success rate",
        SkillCategory::CodeGeneration,
        SkillPattern::code("// code"),
    );

    for _ in 0..10 {
        skill.record_usage(true);
    }

    assert_eq!(skill.confidence, SkillConfidence::High);
}

#[test]
fn confidence_drops_with_failures() {
    let mut skill = LearnedSkill::new("S", "D", SkillCategory::Other, SkillPattern::code("c"));
    skill.record_usage(true);
    skill.record_usage(false);
    assert_eq!(skill.confidence, SkillConfidence::Medium);
    skill.record_usage(false);
    assert_eq!(skill.confidence, SkillConfidence::Low);
    let mut s7 = LearnedSkill::new("S", "D", SkillCategory::Other, SkillPattern::code("c"));
    for i in 0..10 {
        s7.record_usage(i < 7);
    }
    assert_eq!(s7.confidence, SkillConfidence::Medium);
}

#[test]
fn types_test_skill_matching() {
    let skill = LearnedSkill::new(
        "Rust Error Handling",
        "Pattern for handling errors in Rust",
        SkillCategory::ErrorHandling,
        SkillPattern::code("// code"),
    )
    .with_tags(vec!["rust".into(), "errors".into(), "result".into()]);

    assert!(skill.matches_query("rust"));
    assert!(skill.matches_query("error"));
    assert!(skill.matches_query("handling"));
    assert!(!skill.matches_query("python"));

    assert!(skill.matches_tags(&vec!["rust".into()]));
    assert!(skill.matches_tags(&vec!["errors".into()]));
    assert!(!skill.matches_tags(&vec!["python".into()]));
}

#[test]
fn embedding_text_and_digest() {
    let skill = LearnedSkill::new("N", "D", SkillCategory::Other, SkillPattern::code("T"))
        .with_tags(vec!["a".into(), "b".into()]);
    assert_eq!(build_embedding_text(&skill), "N\nD\nT\na, b");
    let plain = LearnedSkill::new("N", "D", SkillCategory::Other, SkillPattern::code("T"));
    assert_eq!(build_embedding_text(&plain), "N\nD\nT");
    let (text, hash) = embedding_text_and_hash(&plain);
    assert_eq!(text, "N\nD\nT");
    let expected = format!("{:x}", <sha2::Sha256 as sha2::Digest>::digest(text.as_bytes()));
    assert_eq!(hash, expected);
    assert_eq!(hash.len(), 64);
    let abc = LearnedSkill::new("abc", "", SkillCategory::Other, SkillPattern::code(""));
    assert_eq!(
        embedding_text_and_hash(&abc).1,
        format!("{:x}", <sha2::Sha256 as sha2::Digest>::digest("abc\n\n".as_bytes()))
    );
}

#[test]
fn test_routing_preference_parse() {
    assert_eq!("balanced".parse::<RoutingPreference>().unwrap(), RoutingPreference::Balanced);
    assert_eq!("FAST".parse::<RoutingPreference>().unwrap(), RoutingPreference::Fast);
    assert!("unknown".parse::<RoutingPreference>().is_err());
}

#[test]
fn complexity_levels_parse() {
    assert_eq!("Expert".parse::<TaskComplexity>().unwrap(), TaskComplexity::Expert);
    assert_eq!("x".parse::<TaskComplexity>().unwrap_err(), "Unknown complexity level: x");
    assert_eq!(TaskComplexity::Simple.to_string(), "simple");
    assert_eq!(RoutingPreference::default(), RoutingPreference::Balanced);
}

#[test]
fn keyring_entry_names() {
    let repo = KeyringMasterKeyRepository::new();
    assert_eq!(repo.service, "demiarch");
    assert_eq!(repo.user, "master-encryption-key");
    let custom = KeyringMasterKeyRepository::with_names("demiarch-test", "test-key");
    assert_eq!(custom.service, "demiarch-test");
}

#[test]
fn extraction_prompt_quotes_artifact_and_task() {
    let ctx = ExtractionContext::new().with_task("Add login");
    let prompt = build_extraction_prompt("code", "auth.rs", "fn login() {}", &ctx);
    assert!(prompt.starts_with("Analyze this code for reusable skills and patterns.\n\nTask Context:\nAdd login\n\nArtifact Name: auth.rs\nArtifact Content:\n```\nfn login() {}\n```\n\nIdentify any reusable patterns"));
    assert!(prompt.ends_with("\"confidence\": 0.8\n        }\n    ]\n}"));

    let bare = build_extraction_prompt("test code", "t.rs", "x", &ExtractionContext::new());
    assert!(bare.contains("Task Context:\nGeneral task\n"));

    let long = "a".repeat(4005);
    let cut = build_extraction_prompt("code", "big.rs", &long, &ExtractionContext::new());
    let quoted = format!("```\n{}...\n[Content truncated]\n```", "a".repeat(4000));
    assert!(cut.contains(&quoted));
}

#[test]
fn error_patterns_pair_errors_with_solutions() {
    let events = vec![
        DebugEvent::EntityUpdated { changes: vec!["Error: module not found".to_string()], at_micros: 0 },
        DebugEvent::EntityCreated { name: "missing-module".to_string(), at_micros: 30_000_000 },
        DebugEvent::Other,
        DebugEvent::EntityUpdated {
            changes: vec!["Build FAILED at step 3".to_string(), "renamed".to_string()],
            at_micros: 100_000_000,
        },
        DebugEvent::RelationshipStrengthened { strong: false, reason: "weak".to_string(), at_micros: 105_000_000 },
        DebugEvent::RelationshipStrengthened { strong: true, reason: "pin version".to_string(), at_micros: 110_000_000 },
        DebugEvent::SkillCognified { skill_id: "s-1".to_string(), entities_extracted: 2, at_micros: 120_000_000 },
        DebugEvent::EntityCreated { name: "late".to_string(), at_micros: 121_000_000 },
    ];
    let groups = error_patterns(&events);
    assert_eq!(groups.len(), 2);
    assert_eq!(groups[0].key, "error module not found");
    assert_eq!(groups[0].solutions.len(), 1);
    assert_eq!(groups[0].solutions[0].description, "Created: missing-module");
    assert_eq!(groups[0].solutions[0].confidence, SolutionConfidence::Created);
    assert_eq!(groups[1].key, "build failed at step 3");
    assert_eq!(groups[1].solutions.len(), 2);
    assert_eq!(groups[1].solutions[0].description, "pin version");
    assert_eq!(groups[1].solutions[0].confidence, SolutionConfidence::OfEvent(5));
    assert_eq!(groups[1].solutions[1].description, "Applied skill s-1 with 2 entities");
    assert_eq!(groups[1].solutions[1].confidence, SolutionConfidence::Cognified);
}

#[test]
fn error_patterns_need_time_between_error_and_creation() {
    let quick = vec![
        DebugEvent::EntityUpdated { changes: vec!["exception thrown".to_string()], at_micros: 0 },
        DebugEvent::EntityCreated { name: "too-soon".to_string(), at_micros: 500_000 },
        DebugEvent::EntityCreated { name: "too-late".to_string(), at_micros: 300_000_000 },
        DebugEvent::EntityCreated { name: "in-time".to_string(), at_micros: 299_999_999 },
        DebugEvent::EntityCreated { name: "after".to_string(), at_micros: 299_999_999 },
    ];
    let groups = error_patterns(&quick);
    assert_eq!(groups.len(), 1);
    assert_eq!(groups[0].key, "exception thrown");
    assert_eq!(groups[0].solutions.len(), 1);
    assert_eq!(groups[0].solutions[0].description, "Created: in-time");

    let none = vec![
        DebugEvent::EntityUpdated { changes: vec!["all good".to_string()], at_micros: 0 },
        DebugEvent::SkillCognified { skill_id: "s".to_string(), entities_extracted: 0, at_micros: 1 },
    ];
    assert!(error_patterns(&none).is_empty());
}

#[test]
fn adding_a_session_twice_adds_it_once() {
    let mut info = SkillSourceInfo::from_session("s-1");
    info.add_session("s-2");
    let once = info.session_ids.clone();
    info.add_session("s-2");
    assert_eq!(info.session_ids, once);
    info.add_project("p");
    info.add_project("p");
    assert_eq!(info.project_ids, vec!["p"]);
}

#[test]
fn truncation_keeps_a_short_prefix() {
    let text = "héllo wörld";
    for max in [0usize, 1, 3, 6, 11, 13, 40] {
        if text.len() <= max || text.is_char_boundary(max) {
            let t = truncate(text, max);
            assert!(t.len() <= max);
            assert!(text.starts_with(t.as_str()));
            if text.len() <= max {
                assert_eq!(t, text);
            }
        }
    }
}

#[test]
fn stored_skill_reads_back_the_same() {
    let mut skill = LearnedSkill::new("Retry", "Retry with backoff", SkillCategory::ErrorHandling, SkillPattern::technique("t"))
        .with_confidence(SkillConfidence::High)
        .with_tags(vec!["retry".to_string()])
        .with_source(SkillSource::new().with_project("p").with_tokens(u32::MAX));
    skill.record_usage(true);
    skill.record_usage(false);
    let row = SkillRow::from_skill(skill.clone());
    assert_eq!(row.category, "error_handling");
    assert_eq!(row.confidence, "high");
    assert_eq!(row.pattern_type, "technique");
    assert_eq!(row.source_tokens_used, Some(-1));
    let back = row.into_learned_skill();
    assert_eq!(back.id, skill.id);
    assert_eq!(back.category, SkillCategory::ErrorHandling);
    assert_eq!(back.confidence, SkillConfidence::High);
    assert_eq!(back.pattern.pattern_type, PatternType::Technique);
    assert_eq!(back.source.tokens_used, Some(u32::MAX));
    assert_eq!(back.usage_stats.times_used, 2);
    assert_eq!(back.usage_stats.success_count, 1);
    assert_eq!(back.tags, skill.tags);
    assert_eq!(back.created_at, skill.created_at);
}

#[test]
fn stored_names_are_read_case_insensitively() {
    let skill = LearnedSkill::new("n", "d", SkillCategory::Other, SkillPattern::code("t"));
    let mut row = SkillRow::from_skill(skill);
    row.category = "TESTING".to_string();
    row.confidence = "Low".to_string();
    row.pattern_type = "unknown".to_string();
    row.times_used = -1;
    let back = row.into_learned_skill();
    assert_eq!(back.category, SkillCategory::Testing);
    assert_eq!(back.confidence, SkillConfidence::Low);
    assert_eq!(back.pattern.pattern_type, PatternType::CodeTemplate);
    assert_eq!(back.usage_stats.times_used, u32::MAX);
}

#[test]
fn braces_in_order_tells_sliceable_responses() {
    assert!(braces_in_order("Here: {\"skills\": []} done"));
    assert!(braces_in_order("no json at all"));
    assert!(braces_in_order("only } a closing brace"));
    assert!(braces_in_order("}{"));
    assert!(!braces_in_order("} then {"));
    assert!(braces_in_order("```json\n{}\n``` } x {"));
}

#[test]
fn test_query_matching() {
    let tags = vec!["database".to_string(), "exception".to_string()];
    let name = "Error Handling";
    let description = "Handle database errors";
    let pattern = "try { ... } catch (e) { ... }";
    assert!(skill_matches_query(name, description, pattern, &tags, &None, "error"));
    assert!(skill_matches_query(name, description, pattern, &tags, &None, "database"));
    assert!(skill_matches_query(name, description, pattern, &tags, &None, "catch"));
    assert!(!skill_matches_query(name, description, pattern, &tags, &None, "network"));
}

#[test]
fn test_extract_error_patterns() {
    // The events of the original fixture: an error recorded on an entity, an
    // entity created thirty seconds later, then a new relationship.
    let events = vec![
        DebugEvent::EntityUpdated { changes: vec!["Error: module not found".to_string()], at_micros: 0 },
        DebugEvent::EntityCreated { name: "missing-module".to_string(), at_micros: 30_000_000 },
        DebugEvent::Other,
    ];
    let patterns = error_patterns(&events);
    assert_eq!(patterns.len(), 1);
    assert_eq!(patterns[0].key, normalize_error("Error: module not found"));
    assert_eq!(patterns[0].solutions.len(), 1);
    assert_eq!(patterns[0].solutions[0].description, "Created: missing-module");
    assert_eq!(patterns[0].solutions[0].confidence, SolutionConfidence::Created);
}

#[test]
fn test_in_memory_repository() {
    let mut repo: InMemoryMasterKeyRepository<Vec<u8>> = InMemoryMasterKeyRepository::new();

    // Initially empty
    assert!(!repo.key_exists());
    assert!(repo.get().is_none());

    // Store a key
    let key: Vec<u8> = (0u8..32).collect();
    repo.store(key.clone());

    // Should exist now
    assert!(repo.key_exists());

    // Retrieve and verify
    let retrieved = repo.get().unwrap();
    assert_eq!(key.as_slice(), retrieved.as_slice());

    // Delete
    repo.delete();
    assert!(!repo.key_exists());
    assert!(repo.get().is_none());

    // A second store replaces the first key
    repo.store(vec![1]);
    repo.store(vec![2]);
    assert_eq!(repo.get(), Some(&vec![2]));
    let default: InMemoryMasterKeyRepository<Vec<u8>> = Default::default();
    assert!(!default.key_exists());
}

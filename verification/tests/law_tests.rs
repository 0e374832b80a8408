use demiarch_core::backoff::backoff_base_ms;
use demiarch_core::error::ErrorKind;
use demiarch_core::image::types::{ImageFormat, ImageStyle};
use demiarch_core::llm::types::FinishReason;
use demiarch_core::routing::{RoutingPreference, TaskComplexity};
use demiarch_core::skills::search::merge_search_results;
use demiarch_core::skills::types::{LearnedSkill, SkillCategory, SkillConfidence, SkillPattern};

#[test]
fn backoff_base_doubles_with_each_attempt() {
    let mut previous = 0;
    for attempt in 1..=55u32 {
        let base = backoff_base_ms(attempt);
        assert!(base >= previous);
        if attempt > 1 {
            assert_eq!(base, previous * 2);
        }
        previous = base;
    }
    assert_eq!(backoff_base_ms(1), 1000);
}

#[test]
fn error_codes_are_distinct_but_for_other_and_io() {
    let kinds = [
        ErrorKind::FeatureNotFound,
        ErrorKind::ProjectNotFound,
        ErrorKind::PhaseNotFound,
        ErrorKind::NetworkError,
        ErrorKind::LlmError,
        ErrorKind::RateLimited,
        ErrorKind::BudgetExceeded,
        ErrorKind::LockTimeout,
        ErrorKind::DatabaseError,
        ErrorKind::PluginNotFound,
        ErrorKind::PluginValidationFailed,
        ErrorKind::LicenseExpired,
        ErrorKind::ConfigError,
        ErrorKind::UserCancelled,
        ErrorKind::InvalidInput,
        ErrorKind::SkillNotFound,
        ErrorKind::SkillExtractionFailed,
        ErrorKind::HookFailed,
        ErrorKind::HookTimeout,
        ErrorKind::RoutingFailed,
        ErrorKind::NoSuitableModel,
        ErrorKind::ContextRetrievalFailed,
        ErrorKind::EmbeddingFailed,
        ErrorKind::Other,
    ];
    for (i, a) in kinds.iter().enumerate() {
        for b in &kinds[i + 1..] {
            assert_ne!(a.code(), b.code());
        }
    }
    assert_eq!(ErrorKind::Other.code(), ErrorKind::Io.code());
}

#[test]
fn rate_limit_code_is_e103() {
    assert_eq!(ErrorKind::RateLimited.code(), "E103");
    assert_eq!(ErrorKind::LlmError.code(), "E101");
}

#[test]
fn names_read_back_as_their_values() {
    for c in [TaskComplexity::Simple, TaskComplexity::Medium, TaskComplexity::Complex, TaskComplexity::Expert] {
        assert_eq!(TaskComplexity::parse(&c.to_string()), Ok(c));
    }
    for p in [RoutingPreference::Balanced, RoutingPreference::Fast, RoutingPreference::Quality, RoutingPreference::Cost] {
        assert_eq!(RoutingPreference::parse(&p.to_string()), Ok(p));
    }
    for s in [ImageStyle::Vivid, ImageStyle::Natural, ImageStyle::Photorealistic, ImageStyle::Artistic] {
        assert_eq!(ImageStyle::parse(s.as_str()), Some(s));
    }
    for f in [ImageFormat::Png, ImageFormat::Jpeg, ImageFormat::WebP] {
        assert_eq!(ImageFormat::parse(f.extension()), Some(f));
    }
    for r in [
        FinishReason::Stop,
        FinishReason::Length,
        FinishReason::ToolCalls,
        FinishReason::ContentFilter,
        FinishReason::Error,
    ] {
        assert_eq!(FinishReason::from_api_name(r.as_str()), r);
    }
    for c in SkillCategory::all() {
        assert_eq!(SkillCategory::from_str(&c.to_string()), c);
    }
    for c in [SkillConfidence::Low, SkillConfidence::Medium, SkillConfidence::High] {
        assert_eq!(SkillConfidence::from_str(c.as_str()), c);
    }
}

fn skill(name: &str) -> LearnedSkill {
    LearnedSkill::new(name, "d", SkillCategory::Other, SkillPattern::technique("t"))
}

#[test]
fn merged_results_keep_each_skill_once_at_its_first_place() {
    let a = skill("a");
    let b = skill("b");
    let c = skill("c");
    let merged = merge_search_results(vec![a.clone(), b.clone()], vec![b.clone(), c.clone(), a.clone()]);
    let ids: Vec<&str> = merged.iter().map(|s| s.id.as_str()).collect();
    assert_eq!(ids, vec![a.id.as_str(), b.id.as_str(), c.id.as_str()]);
    assert!(merge_search_results(Vec::new(), Vec::new()).is_empty());
}

#[test]
fn usage_counts_balance() {
    let mut s = skill("counted");
    for ok in [true, false, true, true] {
        s.record_usage(ok);
    }
    assert_eq!(s.usage_stats.times_used, 4);
    assert_eq!(s.usage_stats.success_count + s.usage_stats.failure_count, s.usage_stats.times_used);
}

//! The classifications that model routing reads: how complex a task is and
//! what the routing should favour.

use vstd::prelude::*;
use crate::http::prefixed;
use crate::text::{lowercase_of, owned, str_eq, to_lowercase};

verus! {

/// Classification of task complexity.
#[derive(Debug, Clone, Copy, PartialEq, Eq, Hash, Structural)]
pub enum TaskComplexity {
    /// Simple tasks: formatting, simple edits, summaries
    Simple,
    /// Medium tasks: standard code generation, reviews
    Medium,
    /// Complex tasks: architecture decisions, multi-file refactoring
    Complex,
    /// Expert tasks: security analysis, performance optimization
    Expert,
}

/// The name of a complexity level.
pub open spec fn complexity_text(c: TaskComplexity) -> Seq<char> {
    match c {
        TaskComplexity::Simple => "simple"@,
        TaskComplexity::Medium => "medium"@,
        TaskComplexity::Complex => "complex"@,
        TaskComplexity::Expert => "expert"@,
    }
}

/// The complexity a lower-case name stands for.
pub open spec fn complexity_of_text(s: Seq<char>) -> Option<TaskComplexity> {
    if s == "simple"@ {
        Some(TaskComplexity::Simple)
    } else if s == "medium"@ {
        Some(TaskComplexity::Medium)
    } else if s == "complex"@ {
        Some(TaskComplexity::Complex)
    } else if s == "expert"@ {
        Some(TaskComplexity::Expert)
    } else {
        None
    }
}

impl TaskComplexity {
    /// The name of the level.
    pub fn as_str(&self) -> (r: &'static str)
        ensures
            r@ == complexity_text(*self),
    {
        match self {
            TaskComplexity::Simple => "simple",
            TaskComplexity::Medium => "medium",
            TaskComplexity::Complex => "complex",
            TaskComplexity::Expert => "expert",
        }
    }

    /// Parse a level, case-insensitively; an unknown name is refused with
    /// `Unknown complexity level: <name>`.
    pub fn parse(s: &str) -> (r: Result<TaskComplexity, String>)
        ensures
            match complexity_of_text(lowercase_of(s@)) {
                Some(c) => r == Ok::<TaskComplexity, String>(c),
                None => r matches Err(m) && m@ == "Unknown complexity level: "@ + s@,
            },
    {
        let lower = to_lowercase(s);
        let l = lower.as_str();
        if str_eq(l, "simple") {
            Ok(TaskComplexity::Simple)
        } else if str_eq(l, "medium") {
            Ok(TaskComplexity::Medium)
        } else if str_eq(l, "complex") {
            Ok(TaskComplexity::Complex)
        } else if str_eq(l, "expert") {
            Ok(TaskComplexity::Expert)
        } else {
            Err(prefixed("Unknown complexity level: ", s))
        }
    }

    /// The name of the level, owned.
    pub fn to_string(&self) -> (r: String)
        ensures
            r@ == complexity_text(*self),
    {
        owned(self.as_str())
    }
}

impl std::str::FromStr for TaskComplexity {
    type Err = String;

    fn from_str(s: &str) -> (r: Result<TaskComplexity, String>)
        ensures
            match complexity_of_text(lowercase_of(s@)) {
                Some(c) => r == Ok::<TaskComplexity, String>(c),
                None => r matches Err(m) && m@ == "Unknown complexity level: "@ + s@,
            },
    {
        TaskComplexity::parse(s)
    }
}

/// Configuration for the routing preference.
#[derive(Debug, Clone, Copy, PartialEq, Eq, Structural)]
pub enum RoutingPreference {
    /// Balance cost, quality, and speed
    Balanced,
    /// Prioritize speed over quality
    Fast,
    /// Prioritize quality over cost
    Quality,
    /// Prioritize cost savings
    Cost,
}

/// The name of a routing preference.
pub open spec fn preference_text(p: RoutingPreference) -> Seq<char> {
    match p {
        RoutingPreference::Balanced => "balanced"@,
        RoutingPreference::Fast => "fast"@,
        RoutingPreference::Quality => "quality"@,
        RoutingPreference::Cost => "cost"@,
    }
}

/// The preference a lower-case name stands for.
pub open spec fn preference_of_text(s: Seq<char>) -> Option<RoutingPreference> {
    if s == "balanced"@ {
        Some(RoutingPreference::Balanced)
    } else if s == "fast"@ {
        Some(RoutingPreference::Fast)
    } else if s == "quality"@ {
        Some(RoutingPreference::Quality)
    } else if s == "cost"@ {
        Some(RoutingPreference::Cost)
    } else {
        None
    }
}

impl Default for RoutingPreference {
    /// The default preference balances cost, quality and speed.
    fn default() -> (r: Self)
        ensures
            r == RoutingPreference::Balanced,
    {
        RoutingPreference::Balanced
    }
}

impl RoutingPreference {
    /// The name of the preference.
    pub fn as_str(&self) -> (r: &'static str)
        ensures
            r@ == preference_text(*self),
    {
        match self {
            RoutingPreference::Balanced => "balanced",
            RoutingPreference::Fast => "fast",
            RoutingPreference::Quality => "quality",
            RoutingPreference::Cost => "cost",
        }
    }

    /// Parse a preference, case-insensitively; an unknown name is refused
    /// with `Unknown routing preference: <name>`.
    pub fn parse(s: &str) -> (r: Result<RoutingPreference, String>)
        ensures
            match preference_of_text(lowercase_of(s@)) {
                Some(p) => r == Ok::<RoutingPreference, String>(p),
                None => r matches Err(m) && m@ == "Unknown routing preference: "@ + s@,
            },
    {
        let lower = to_lowercase(s);
        let l = lower.as_str();
        if str_eq(l, "balanced") {
            Ok(RoutingPreference::Balanced)
        } else if str_eq(l, "fast") {
            Ok(RoutingPreference::Fast)
        } else if str_eq(l, "quality") {
            Ok(RoutingPreference::Quality)
        } else if str_eq(l, "cost") {
            Ok(RoutingPreference::Cost)
        } else {
            Err(prefixed("Unknown routing preference: ", s))
        }
    }

    /// The name of the preference, owned.
    pub fn to_string(&self) -> (r: String)
        ensures
            r@ == preference_text(*self),
    {
        owned(self.as_str())
    }
}

impl std::str::FromStr for RoutingPreference {
    type Err = String;

    fn from_str(s: &str) -> (r: Result<RoutingPreference, String>)
        ensures
            match preference_of_text(lowercase_of(s@)) {
                Some(p) => r == Ok::<RoutingPreference, String>(p),
                None => r matches Err(m) && m@ == "Unknown routing preference: "@ + s@,
            },
    {
        RoutingPreference::parse(s)
    }
}

/// Every complexity level's name reads back as that level.
pub proof fn lemma_complexity_round_trip(c: TaskComplexity)
    ensures
        complexity_of_text(complexity_text(c)) == Some(c),
{
    reveal_strlit("simple");
    reveal_strlit("medium");
    reveal_strlit("complex");
    reveal_strlit("expert");
    let t = complexity_text(c);
    if c != TaskComplexity::Simple {
        assert(t[0] != 's');
    }
    if c != TaskComplexity::Medium {
        assert(t[0] != 'm');
    }
    if c != TaskComplexity::Complex {
        assert(t[0] != 'c');
    }
}

/// Every preference's name reads back as that preference.
pub proof fn lemma_preference_round_trip(p: RoutingPreference)
    ensures
        preference_of_text(preference_text(p)) == Some(p),
{
    reveal_strlit("balanced");
    reveal_strlit("fast");
    reveal_strlit("quality");
    reveal_strlit("cost");
    let t = preference_text(p);
    if p != RoutingPreference::Balanced {
        assert(t[0] != 'b');
    }
    if p != RoutingPreference::Fast {
        assert(t[0] != 'f');
    }
    if p != RoutingPreference::Quality {
        assert(t[0] != 'q');
    }
}

} // verus!

//! The kinds of errors of the application and their stable codes.

use vstd::prelude::*;

verus! {

/// The kinds of application errors, one per variant of the error type.
#[derive(Debug, Clone, Copy, PartialEq, Eq, Structural)]
pub enum ErrorKind {
    FeatureNotFound,
    ProjectNotFound,
    PhaseNotFound,
    NetworkError,
    LlmError,
    RateLimited,
    BudgetExceeded,
    LockTimeout,
    DatabaseError,
    PluginNotFound,
    PluginValidationFailed,
    LicenseExpired,
    ConfigError,
    UserCancelled,
    InvalidInput,
    SkillNotFound,
    SkillExtractionFailed,
    HookFailed,
    HookTimeout,
    RoutingFailed,
    NoSuitableModel,
    ContextRetrievalFailed,
    EmbeddingFailed,
    Other,
    Io,
}

/// The code of an error kind: a letter and a number whose hundreds name
/// the area (entities, network, cost, locks, database, plugins, config,
/// user, input, skills, hooks, routing, context).
pub open spec fn error_code(k: ErrorKind) -> Seq<char> {
    match k {
        ErrorKind::FeatureNotFound => "E001"@,
        ErrorKind::ProjectNotFound => "E002"@,
        ErrorKind::PhaseNotFound => "E003"@,
        ErrorKind::NetworkError => "E100"@,
        ErrorKind::LlmError => "E101"@,
        ErrorKind::RateLimited => "E103"@,
        ErrorKind::BudgetExceeded => "E200"@,
        ErrorKind::LockTimeout => "E300"@,
        ErrorKind::DatabaseError => "E400"@,
        ErrorKind::PluginNotFound => "E500"@,
        ErrorKind::PluginValidationFailed => "E501"@,
        ErrorKind::LicenseExpired => "E502"@,
        ErrorKind::ConfigError => "E600"@,
        ErrorKind::UserCancelled => "E700"@,
        ErrorKind::InvalidInput => "E800"@,
        ErrorKind::SkillNotFound => "E900"@,
        ErrorKind::SkillExtractionFailed => "E901"@,
        ErrorKind::HookFailed => "E1000"@,
        ErrorKind::HookTimeout => "E1001"@,
        ErrorKind::RoutingFailed => "E1100"@,
        ErrorKind::NoSuitableModel => "E1101"@,
        ErrorKind::ContextRetrievalFailed => "E1200"@,
        ErrorKind::EmbeddingFailed => "E1201"@,
        ErrorKind::Other => "E9999"@,
        ErrorKind::Io => "E9999"@,
    }
}

impl ErrorKind {
    /// Get the error code for this kind of error.
    pub fn code(&self) -> (r: &'static str)
        ensures
            r@ == error_code(*self),
    {
        match self {
            ErrorKind::FeatureNotFound => "E001",
            ErrorKind::ProjectNotFound => "E002",
            ErrorKind::PhaseNotFound => "E003",
            ErrorKind::NetworkError => "E100",
            ErrorKind::LlmError => "E101",
            ErrorKind::RateLimited => "E103",
            ErrorKind::BudgetExceeded => "E200",
            ErrorKind::LockTimeout => "E300",
            ErrorKind::DatabaseError => "E400",
            ErrorKind::PluginNotFound => "E500",
            ErrorKind::PluginValidationFailed => "E501",
            ErrorKind::LicenseExpired => "E502",
            ErrorKind::ConfigError => "E600",
            ErrorKind::UserCancelled => "E700",
            ErrorKind::InvalidInput => "E800",
            ErrorKind::SkillNotFound => "E900",
            ErrorKind::SkillExtractionFailed => "E901",
            ErrorKind::HookFailed => "E1000",
            ErrorKind::HookTimeout => "E1001",
            ErrorKind::RoutingFailed => "E1100",
            ErrorKind::NoSuitableModel => "E1101",
            ErrorKind::ContextRetrievalFailed => "E1200",
            ErrorKind::EmbeddingFailed => "E1201",
            ErrorKind::Other => "E9999",
            ErrorKind::Io => "E9999",
        }
    }

    /// The suggestion for this kind of error that needs no detail of the
    /// error; `None` for the kinds whose suggestion names a detail (a plugin
    /// or a budget) and for the kinds that have none.
    pub fn fixed_suggestion(&self) -> (r: Option<&'static str>)
        ensures
            r matches Some(s) ==> s@ == match *self {
                ErrorKind::FeatureNotFound => "demiarch features list"@,
                ErrorKind::ProjectNotFound => "demiarch projects list"@,
                ErrorKind::NetworkError => "Check internet connection"@,
                ErrorKind::LlmError => "demiarch config get openrouter_api_key"@,
                ErrorKind::SkillNotFound => "demiarch skills list"@,
                _ => "demiarch context rebuild"@,
            },
            r.is_some() <==> (*self == ErrorKind::FeatureNotFound || *self == ErrorKind::ProjectNotFound || *self
                == ErrorKind::NetworkError || *self == ErrorKind::LlmError || *self == ErrorKind::SkillNotFound
                || *self == ErrorKind::ContextRetrievalFailed),
    {
        match self {
            ErrorKind::FeatureNotFound => Some("demiarch features list"),
            ErrorKind::ProjectNotFound => Some("demiarch projects list"),
            ErrorKind::NetworkError => Some("Check internet connection"),
            ErrorKind::LlmError => Some("demiarch config get openrouter_api_key"),
            ErrorKind::SkillNotFound => Some("demiarch skills list"),
            ErrorKind::ContextRetrievalFailed => Some("demiarch context rebuild"),
            _ => None,
        }
    }
}

/// Different areas never share a code: the code of each kind but the
/// generic ones is its own.
pub proof fn lemma_codes_distinct(a: ErrorKind, b: ErrorKind)
    requires
        a != b,
        !(a == ErrorKind::Other && b == ErrorKind::Io),
        !(a == ErrorKind::Io && b == ErrorKind::Other),
    ensures
        error_code(a) != error_code(b),
{
    reveal_strlit("E001");
    reveal_strlit("E002");
    reveal_strlit("E003");
    reveal_strlit("E100");
    reveal_strlit("E101");
    reveal_strlit("E103");
    reveal_strlit("E200");
    reveal_strlit("E300");
    reveal_strlit("E400");
    reveal_strlit("E500");
    reveal_strlit("E501");
    reveal_strlit("E502");
    reveal_strlit("E600");
    reveal_strlit("E700");
    reveal_strlit("E800");
    reveal_strlit("E900");
    reveal_strlit("E901");
    reveal_strlit("E1000");
    reveal_strlit("E1001");
    reveal_strlit("E1100");
    reveal_strlit("E1101");
    reveal_strlit("E1200");
    reveal_strlit("E1201");
    reveal_strlit("E9999");
    let ca = error_code(a);
    let cb = error_code(b);
    if ca == cb {
        assert(ca.len() == cb.len());
        assert(ca[1] == cb[1] && ca[2] == cb[2] && ca[3] == cb[3]);
        if ca.len() == 5 {
            assert(ca[4] == cb[4]);
        }
    }
}

} // verus!

//! Deployment settings, with their defaults.
use vstd::prelude::*;

verus! {

#[derive(Debug)]
pub struct AppConfig {
    pub environment: String,
    pub log_level: String,
    pub table_name: String,
}

pub open spec fn setting_or(s: Option<String>, default: Seq<char>) -> Seq<char> {
    match s {
        Some(v) => v@,
        None => default,
    }
}

impl AppConfig {
    /// The settings given, and the defaults `dev`, `INFO` and `Items` for those missing.
    pub fn from_settings(
        environment: Option<String>,
        log_level: Option<String>,
        table_name: Option<String>,
    ) -> (r: AppConfig)
        ensures
            r.environment@ == setting_or(environment, "dev"@),
            r.log_level@ == setting_or(log_level, "INFO"@),
            r.table_name@ == setting_or(table_name, "Items"@),
    {
        AppConfig {
            environment: match environment {
                Some(v) => v,
                None => String::from_str("dev"),
            },
            log_level: match log_level {
                Some(v) => v,
                None => String::from_str("INFO"),
            },
            table_name: match table_name {
                Some(v) => v,
                None => String::from_str("Items"),
            },
        }
    }

    /// Whether this is the production deployment.
    pub fn is_production(&self) -> (r: bool)
        ensures
            r == (self.environment@ == "prod"@),
    {
        self.environment == String::from_str("prod")
    }
}

} // verus!

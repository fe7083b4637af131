//! Which environment the service runs in.

use vstd::prelude::*;
use vstd::string::*;
use crate::text::str_eq;

verus! {

/// The environment named by the `ENVIRONMENT` variable, or `development`
/// where it is not set.
pub fn get_environment(variable: Option<String>) -> (environment: String)
    ensures
        environment@ == (match variable {
            Some(name) => name@,
            None => "development"@,
        }),
{
    match variable {
        Some(name) => name,
        None => String::from_str("development"),
    }
}

/// Check if running in development environment.
pub fn is_development(environment: &str) -> (yes: bool)
    ensures
        yes == (environment@ == "development"@),
{
    str_eq(environment, "development")
}

/// Check if running in production environment.
pub fn is_production(environment: &str) -> (yes: bool)
    ensures
        yes == (environment@ == "production"@),
{
    str_eq(environment, "production")
}

/// Check if running in test environment.
pub fn is_test(environment: &str) -> (yes: bool)
    ensures
        yes == (environment@ == "test"@),
{
    str_eq(environment, "test")
}

} // verus!

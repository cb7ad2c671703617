//! Small decisions around the service's own plumbing: reading a configured
//! parameter, and the health report.

use vstd::prelude::*;
use crate::errors::AppError;

verus! {

pub open spec fn value_not_found_text(name: Seq<char>) -> Seq<char> {
    "Value not found for parameter: "@ + name
}

pub open spec fn parameter_not_found_text(name: Seq<char>) -> Seq<char> {
    "Parameter not found: "@ + name
}

/// The value of the configuration parameter `name`, given what the parameter
/// store answered: the parameter, if it exists, with its value, if it has
/// one.
pub fn parameter_value(name: &str, parameter: Option<Option<String>>) -> (res: Result<
    String,
    AppError,
>)
    ensures
        match parameter {
            Some(Some(v)) => res == Ok::<String, AppError>(v),
            Some(None) => res matches Err(AppError::NotFound(m)) && m@ == value_not_found_text(
                name@,
            ),
            None => res matches Err(AppError::NotFound(m)) && m@ == parameter_not_found_text(
                name@,
            ),
        },
{
    match parameter {
        Some(Some(v)) => Ok(v),
        Some(None) => {
            let mut m = String::from_str("Value not found for parameter: ");
            m.append(name);
            Err(AppError::NotFound(m))
        },
        None => {
            let mut m = String::from_str("Parameter not found: ");
            m.append(name);
            Err(AppError::NotFound(m))
        },
    }
}

pub open spec fn health_text(healthy: bool) -> Seq<char> {
    if healthy {
        "healthy"@
    } else {
        "unhealthy"@
    }
}

/// The status that the health check reports.
pub fn health_status(healthy: bool) -> (status: String)
    ensures
        status@ == health_text(healthy),
{
    if healthy {
        String::from_str("healthy")
    } else {
        String::from_str("unhealthy")
    }
}

} // verus!

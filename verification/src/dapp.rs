//! Errors of the rollups backend builder.
//!
//! The builder itself wires an HTTP client to a server address taken
//! from the environment; that wiring lives with the caller. The error
//! type names the parameter a caller left unset.

use vstd::prelude::*;

verus! {

/// Error of building a rollups backend.
#[derive(Debug, Clone, PartialEq, Eq)]
pub enum RollupsBuilderError {
    /// A required parameter was neither set explicitly nor found in
    /// the environment.
    MissingParameter { param: String, env_var: String, method_name: String },
}

impl RollupsBuilderError {
    /// The missing-parameter error for `param`, naming the environment
    /// variable and the builder method that could supply it.
    pub fn missing_parameter(param: &str, env_var: &str, method_name: &str) -> (r: Self)
        ensures
            r matches RollupsBuilderError::MissingParameter {
                param: p,
                env_var: e,
                method_name: m,
            } && p@ == param@ && e@ == env_var@ && m@ == method_name@,
    {
        Self::MissingParameter {
            param: param.to_owned(),
            env_var: env_var.to_owned(),
            method_name: method_name.to_owned(),
        }
    }
}

} // verus!

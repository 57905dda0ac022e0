//! Where the API token comes from.
use vstd::prelude::*;

use crate::errors::HttpError;

verus! {

/// The environment variable that holds the token unless another is named.
pub const DEFAULT_TOKEN_VARIABLE: &'static str = "ESKOMSEPUSH_API_KEY";

/// The name of the variable to read: `var_name`, else the default.
pub open spec fn variable_of(var_name: Option<&str>) -> Seq<char> {
    match var_name {
        Some(v) => v@,
        None => DEFAULT_TOKEN_VARIABLE@,
    }
}

/// The name of the environment variable that holds the token: `var_name`,
/// else `DEFAULT_TOKEN_VARIABLE`.
pub fn token_variable<'a>(var_name: Option<&'a str>) -> (r: &'a str)
    ensures
        r@ == variable_of(var_name),
{
    match var_name {
        Some(v) => v,
        None => DEFAULT_TOKEN_VARIABLE,
    }
}

/// Whether `r` is the token found as `value` under the variable that
/// `var_name` names: the value where it is present and not empty, else
/// `TokenNotSet` with the variable's name.
pub open spec fn token_outcome(
    var_name: Option<&str>,
    value: Option<String>,
    r: Result<Seq<char>, HttpError>,
) -> bool {
    match value {
        Some(v) if v@.len() > 0 => r == Ok::<Seq<char>, HttpError>(v@),
        _ => r matches Err(HttpError::TokenNotSet { variable }) && variable@ == variable_of(var_name),
    }
}

/// `r` with the text of its `Ok` value.
pub open spec fn text_result(r: Result<String, HttpError>) -> Result<Seq<char>, HttpError> {
    match r {
        Ok(s) => Ok(s@),
        Err(e) => Err(e),
    }
}

/// The token, from `value`, what the environment holds under the variable
/// that `token_variable(var_name)` names. A missing or empty value is an
/// error: the client never goes on with an empty token.
pub fn get_token_from_env(var_name: Option<&str>, value: Option<String>) -> (r: Result<String, HttpError>)
    ensures
        token_outcome(var_name, value, text_result(r)),
{
    match value {
        Some(v) => {
            if v.as_str().unicode_len() > 0 {
                return Ok(v);
            }
        },
        None => {},
    }
    Err(HttpError::TokenNotSet { variable: String::from_str(token_variable(var_name)) })
}

} // verus!

use vstd::prelude::*;

verus! {

/// Name of the environment variable that holds the GetOutline API key.
pub const API_KEY_VAR: &'static str = "GETOUTLINE_API_KEY";

/// Configuration options for the CLI
pub struct Configuration {
    pub get_outline_info: GetOutlineInfo,
}

/// Config options relating to GetOutline itself
pub struct GetOutlineInfo {
    pub api_key: String,
}

/// Error returned when a required environment variable isn't present
#[derive(Debug)]
pub struct MissingEnvVarError {
    var_name: String,
}

impl MissingEnvVarError {
    pub closed spec fn spec_var_name(&self) -> Seq<char> {
        self.var_name@
    }

    /// Name of the variable that was missing
    pub fn var_name(&self) -> (r: &str)
        ensures
            r@ == self.spec_var_name(),
    {
        self.var_name.as_str()
    }
}

/// Creates a [MissingEnvVarError] for the given environment variable
fn variable_was_required(var_name: &str) -> (r: MissingEnvVarError)
    ensures
        r.spec_var_name() == var_name@,
{
    MissingEnvVarError { var_name: String::from_str(var_name) }
}

/// Builds the configuration from the value found for [API_KEY_VAR], if any.
pub fn parse_from_env(api_key: Option<String>) -> (r: Result<Configuration, MissingEnvVarError>)
    ensures
        api_key is None <==> r is Err,
        r is Err ==> r->Err_0.spec_var_name() == API_KEY_VAR@,
        r is Ok ==> r->Ok_0.get_outline_info.api_key@ == api_key->Some_0@,
{
    match api_key {
        Some(key) => Ok(Configuration { get_outline_info: GetOutlineInfo { api_key: key } }),
        None => Err(variable_was_required(API_KEY_VAR)),
    }
}

} // verus!

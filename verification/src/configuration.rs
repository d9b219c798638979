use vstd::prelude::*;
use crate::error::Error;
use crate::text::{natural_text, natural_to_text};

verus! {

/// Where the GraphQL endpoint is served, and whether it is served at all.
#[derive(Debug, Clone, Copy, PartialEq)]
pub struct GraphQlConfiguration {
    pub enabled: bool,
    pub port: u16,
}

/// The application's configuration.
#[derive(Debug, Clone, Copy, PartialEq)]
pub struct AppConfiguration {
    pub graphql: GraphQlConfiguration,
}

impl GraphQlConfiguration {
    /// The address at which the endpoint is served, as a text: the local
    /// host and the configured port.
    pub fn parse_serve_address(&self) -> (address: String)
        ensures
            address@ == "127.0.0.1:"@ + natural_text(self.port as nat),
    {
        "127.0.0.1:".to_owned().concat(natural_to_text(self.port as u64).as_str())
    }
}

/// The value of what reading a variable gave: the variable's text, or the
/// reason that it could not be read.
pub open spec fn variable_view(value: Result<String, String>) -> Result<Seq<char>, Seq<char>> {
    match value {
        Ok(text) => Ok(text@),
        Err(reason) => Err(reason@),
    }
}

/// The path of the configuration file, given what reading the environment
/// variable `variable_name` gave: the variable's text, or an error that
/// names the variable and the reason.
pub fn get_configuration_file_path_variable(
    variable_name: &str,
    value: Result<String, String>,
) -> (path: Result<String, Error>)
    ensures
        match variable_view(value) {
            Ok(text) => path matches Ok(found) && found@ == text,
            Err(reason) => path matches Err(error) && error@ == "Could not read "@
                + variable_name@ + ": "@ + reason,
        },
{
    match value {
        Ok(val) => Ok(val),
        Err(err) => Err(
            Error::Generic(
                "Could not read ".to_owned().concat(variable_name).concat(": ").concat(
                    err.as_str(),
                ),
            ),
        ),
    }
}

} // verus!

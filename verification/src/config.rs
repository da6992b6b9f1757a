//! Invocation configuration: two positional arguments and a
//! case-insensitivity flag.

use vstd::prelude::*;

verus! {

/// Failure of configuration building.
#[derive(Clone, Copy, Debug, PartialEq, Eq, Structural)]
pub enum ConfigError {
    /// No query argument was given.
    MissingQuery,
    /// No file-path argument was given.
    MissingFilePath,
}

impl ConfigError {
    /// A human-readable description of the error.
    pub fn message(&self) -> (r: &'static str)
        ensures
            *self is MissingQuery ==> r@ == "Didn't get a query string"@,
            *self is MissingFilePath ==> r@ == "Didn't get a file path"@,
    {
        match self {
            ConfigError::MissingQuery => "Didn't get a query string",
            ConfigError::MissingFilePath => "Didn't get a file path",
        }
    }
}

/// The resolved invocation parameters: the query pattern, the path of
/// the file to search, and whether matching is case-insensitive.
pub struct Config {
    pub query: String,
    pub file_path: String,
    pub ignore_case: bool,
}

impl Config {
    /// Builds a configuration from the argument list of the invocation.
    /// The first argument (conventionally the program name) is
    /// discarded; the next two become the query and the file path, and
    /// anything further is ignored.  `ignore_case` is resolved by the
    /// caller (from the presence of the `IGNORE_CASE` environment
    /// variable) and taken as given.
    pub fn build(args: Vec<String>, ignore_case: bool) -> (r: Result<Config, ConfigError>)
        ensures
            r is Ok <==> args@.len() >= 3,
            r is Ok ==> {
                &&& r->Ok_0.query@ == args@[1]@
                &&& r->Ok_0.file_path@ == args@[2]@
                &&& r->Ok_0.ignore_case == ignore_case
            },
            args@.len() < 2 ==> r == Err::<Config, ConfigError>(ConfigError::MissingQuery),
            args@.len() == 2 ==> r == Err::<Config, ConfigError>(ConfigError::MissingFilePath),
    {
        if args.len() < 2 {
            return Err(ConfigError::MissingQuery);
        }
        if args.len() < 3 {
            return Err(ConfigError::MissingFilePath);
        }
        let query = args[1].clone();
        let file_path = args[2].clone();
        Ok(Config { query, file_path, ignore_case })
    }
}

/// The fixed help message, as shown on a configuration failure.
pub open spec fn usage_message() -> Seq<char> {
    "Help:\nWill search a regular expression in a file, printing the matching lines in the standard output.\n\nusage:\nrustgrep query file_path\n    query: a regular expression to search\n    file_path: the file in which to search\n"@
}

/// Produces the fixed help message (program name, one-line description,
/// invocation syntax, and the two positional arguments).  The caller
/// writes it to the error stream on the configuration-failure paths.
pub fn usage() -> (r: String)
    ensures
        r@ == usage_message(),
{
    String::from_str(
        "Help:\nWill search a regular expression in a file, printing the matching lines in the standard output.\n\nusage:\nrustgrep query file_path\n    query: a regular expression to search\n    file_path: the file in which to search\n",
    )
}

} // verus!

//! The API keys the app needs, and which environment values supply them.

use vstd::prelude::*;
use vstd::string::StringExecFns;

verus! {

/// Environment variable holding the speech-to-text key.
pub const ASSEMBLYAI_KEY_VAR: &'static str = "ASSEMBLYAI_API_KEY";

/// Environment variable holding the language-model key.
pub const GEMINI_KEY_VAR: &'static str = "GEMINI_API_KEY";

/// API keys for the two services.
#[derive(Clone)]
pub struct Config {
    pub assemblyai_api_key: String,
    pub gemini_api_key: String,
}

/// A key that is not set.
pub enum ConfigError {
    MissingAssemblyAiKey,
    MissingGeminiKey,
}

pub open spec fn config_error_text(e: ConfigError) -> Seq<char> {
    match e {
        ConfigError::MissingAssemblyAiKey => "ASSEMBLYAI_API_KEY not set (check .env)"@,
        ConfigError::MissingGeminiKey => "GEMINI_API_KEY not set (check .env)"@,
    }
}

impl ConfigError {
    /// The message shown for this error.
    pub fn message(&self) -> (m: String)
        ensures
            m@ == config_error_text(*self),
    {
        match self {
            ConfigError::MissingAssemblyAiKey => String::from_str(
                "ASSEMBLYAI_API_KEY not set (check .env)",
            ),
            ConfigError::MissingGeminiKey => String::from_str("GEMINI_API_KEY not set (check .env)"),
        }
    }
}

impl Config {
    /// Builds the configuration from the values of `ASSEMBLYAI_API_KEY` and
    /// `GEMINI_API_KEY`, as looked up by the caller. The speech-to-text key is
    /// checked first.
    pub fn load(assemblyai_api_key: Option<String>, gemini_api_key: Option<String>) -> (r: Result<
        Config,
        ConfigError,
    >)
        ensures
            match (assemblyai_api_key, gemini_api_key) {
                (Some(a), Some(g)) => r matches Ok(c) && c.assemblyai_api_key == a
                    && c.gemini_api_key == g,
                (None, _) => r matches Err(ConfigError::MissingAssemblyAiKey),
                (Some(_), None) => r matches Err(ConfigError::MissingGeminiKey),
            },
    {
        let assemblyai_api_key = match assemblyai_api_key {
            Some(k) => k,
            None => return Err(ConfigError::MissingAssemblyAiKey),
        };
        let gemini_api_key = match gemini_api_key {
            Some(k) => k,
            None => return Err(ConfigError::MissingGeminiKey),
        };
        Ok(Config { assemblyai_api_key, gemini_api_key })
    }
}

/// The `.env` files read after the one in the working directory: one, two and
/// three directories up.
pub open spec fn env_file_candidates_text() -> Seq<Seq<char>> {
    seq![".."@ + "/.env"@, "../.."@ + "/.env"@, "../../.."@ + "/.env"@]
}

/// The paths of the `.env` files looked for in parent directories, nearest first.
pub fn env_file_candidates() -> (paths: Vec<String>)
    ensures
        paths@.len() == 3,
        forall|i: int| 0 <= i < 3 ==> #[trigger] paths@[i]@ == env_file_candidates_text()[i],
{
    let mut paths: Vec<String> = Vec::new();
    paths.push(String::from_str("..").concat("/.env"));
    paths.push(String::from_str("../..").concat("/.env"));
    paths.push(String::from_str("../../..").concat("/.env"));
    paths
}

} // verus!

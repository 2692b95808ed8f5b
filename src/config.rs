use vstd::prelude::*;

verus! {

/// The completion endpoint used when none is configured.
pub const DEFAULT_ENDPOINT: &'static str = "https://api.openai.com/v1/chat/completions";

/// Why the stage cannot become operational.
#[derive(Debug, Clone, Copy, PartialEq, Eq, Structural)]
pub enum ConfigurationError {
    /// No secret for authenticating with the remote service was given.
    MissingApiKey,
}

/// Where requests go and how they are authenticated. Built once at startup.
#[derive(Debug)]
pub struct Config {
    pub api_key: String,
    pub endpoint: String,
}

impl Config {
    /// A configuration from the secret and the optional endpoint override.
    /// Without a secret there is none.
    pub fn from_values(api_key: Option<String>, endpoint: Option<String>) -> (r: Result<
        Config,
        ConfigurationError,
    >)
        ensures
            api_key is None ==> r == Err::<Config, ConfigurationError>(
                ConfigurationError::MissingApiKey,
            ),
            api_key is Some ==> r is Ok && r->Ok_0.api_key@ == api_key->0@ && (match endpoint {
                Some(e) => r->Ok_0.endpoint@ == e@,
                None => r->Ok_0.endpoint@ == DEFAULT_ENDPOINT@,
            }),
    {
        match api_key {
            None => Err(ConfigurationError::MissingApiKey),
            Some(api_key) => {
                let endpoint = match endpoint {
                    Some(e) => e,
                    None => String::from_str(DEFAULT_ENDPOINT),
                };
                Ok(Config { api_key, endpoint })
            },
        }
    }

    /// The headers of every request: the secret, and the body's media type.
    pub fn headers(&self) -> (r: Vec<(String, String)>)
        ensures
            r@.len() == 2,
            r@[0].0@ == "api-key"@,
            r@[0].1@ == self.api_key@,
            r@[1].0@ == "Content-Type"@,
            r@[1].1@ == "application/json"@,
    {
        let mut r: Vec<(String, String)> = Vec::new();
        r.push((String::from_str("api-key"), self.api_key.clone()));
        r.push((String::from_str("Content-Type"), String::from_str("application/json")));
        r
    }
}

} // verus!

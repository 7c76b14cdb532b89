//! Client configuration (stored by the program at
//! `~/.config/os/config.toml`).

use vstd::prelude::*;

verus! {

/// Client configuration.
pub struct Config {
    pub api_url: String,
    pub token: String,
    pub default_org: String,
    /// Token for reading release assets when upgrading, if configured.
    pub github_token: Option<String>,
}

impl Default for Config {
    /// A local API, no credentials, the `agema-labs` organisation.
    fn default() -> (c: Self)
        ensures
            c.api_url@ == "http://localhost:8080"@,
            c.token@ == Seq::<char>::empty(),
            c.default_org@ == "agema-labs"@,
            c.github_token is None,
    {
        Config {
            api_url: String::from_str("http://localhost:8080"),
            token: String::new(),
            default_org: String::from_str("agema-labs"),
            github_token: None,
        }
    }
}

impl Config {
    /// The configured GitHub token, when there is a non-empty one.
    pub fn upgrade_token(&self) -> (r: Option<&str>)
        ensures
            match self.github_token {
                Some(t) => if t@.len() > 0 {
                    r matches Some(x) && x@ == t@
                } else {
                    r is None
                },
                None => r is None,
            },
    {
        match &self.github_token {
            Some(t) => if t.as_str().is_empty() {
                None
            } else {
                Some(t.as_str())
            },
            None => None,
        }
    }
}

} // verus!

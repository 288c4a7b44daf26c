//! Where the pieces of a deployment are found.

use vstd::prelude::*;

verus! {

/// The settings of a deployment.
#[derive(Debug, PartialEq, Eq)]
pub struct Config {
    pub database_url: String,
    pub ollama_url: String,
    pub lokai_default_llm_model: String,
    pub lokai_host: String,
    pub lokai_port: String,
}

impl Clone for Config {
    fn clone(&self) -> (r: Self)
        ensures
            r.database_url@ == self.database_url@,
            r.ollama_url@ == self.ollama_url@,
            r.lokai_default_llm_model@ == self.lokai_default_llm_model@,
            r.lokai_host@ == self.lokai_host@,
            r.lokai_port@ == self.lokai_port@,
    {
        Config {
            database_url: self.database_url.clone(),
            ollama_url: self.ollama_url.clone(),
            lokai_default_llm_model: self.lokai_default_llm_model.clone(),
            lokai_host: self.lokai_host.clone(),
            lokai_port: self.lokai_port.clone(),
        }
    }
}

/// What the environment says of each setting: its value, where it is set.
#[derive(Debug, PartialEq, Eq)]
pub struct Environment {
    pub database_url: Option<String>,
    pub ollama_url: Option<String>,
    pub lokai_default_llm_model: Option<String>,
    pub lokai_host: Option<String>,
    pub lokai_port: Option<String>,
}

/// The value of a setting: what the environment says, or else the default.
pub open spec fn setting(value: Option<String>, default: Seq<char>) -> Seq<char> {
    match value {
        Some(text) => text@,
        None => default,
    }
}

/// The value of a setting: what the environment says, or else the default.
pub fn get_env_var(value: Option<String>, default: &str) -> (r: String)
    ensures
        r@ == setting(value, default@),
{
    match value {
        Some(text) => text,
        None => default.to_owned(),
    }
}

impl Config {
    /// The name of the variable that sets `database_url`.
    pub const DATABASE_URL: &'static str = "DATABASE_URL";

    /// The name of the variable that sets `ollama_url`.
    pub const OLLAMA_URL: &'static str = "OLLAMA_URL";

    /// The name of the variable that sets `lokai_default_llm_model`.
    pub const LOKAI_DEFAULT_LLM_MODEL: &'static str = "LOKAI_DEFAULT_LLM_MODEL";

    /// The name of the variable that sets `lokai_host`.
    pub const LOKAI_HOST: &'static str = "LOKAI_HOST";

    /// The name of the variable that sets `lokai_port`.
    pub const LOKAI_PORT: &'static str = "LOKAI_PORT";

    /// The settings that `environment` asks for, with the default for each one that
    /// it leaves open.
    pub fn new(environment: Environment) -> (r: Self)
        ensures
            r.database_url@ == setting(environment.database_url, "sqlite://db.sqlite3"@),
            r.ollama_url@ == setting(
                environment.ollama_url,
                "http://host.docker.internal:11434"@,
            ),
            r.lokai_default_llm_model@ == setting(
                environment.lokai_default_llm_model,
                "phi3:3.8b"@,
            ),
            r.lokai_host@ == setting(environment.lokai_host, "0.0.0.0"@),
            r.lokai_port@ == setting(environment.lokai_port, "3000"@),
    {
        Config {
            database_url: get_env_var(environment.database_url, "sqlite://db.sqlite3"),
            ollama_url: get_env_var(
                environment.ollama_url,
                "http://host.docker.internal:11434",
            ),
            lokai_default_llm_model: get_env_var(
                environment.lokai_default_llm_model,
                "phi3:3.8b",
            ),
            lokai_host: get_env_var(environment.lokai_host, "0.0.0.0"),
            lokai_port: get_env_var(environment.lokai_port, "3000"),
        }
    }

    /// The address to listen on: the host, a colon, the port.
    pub fn lokai_url(&self) -> (r: String)
        ensures
            r@ == self.lokai_host@ + seq![':'] + self.lokai_port@,
    {
        let mut url: String = self.lokai_host.clone();
        proof {
            reveal_strlit(":");
            assert(":"@ =~= seq![':']);
        }
        url.append(":");
        url.append(self.lokai_port.as_str());
        url
    }

    /// The address of the chat service of the inference server.
    pub fn chat_url(&self) -> (r: String)
        ensures
            r@ == self.ollama_url@ + "/api/chat"@,
    {
        let mut url: String = self.ollama_url.clone();
        url.append("/api/chat");
        url
    }
}

} // verus!

//! Where the text-generation backend is found.
use vstd::prelude::*;
use vstd::string::StringExecFns;

verus! {

/// The address of the text-generation backend and the model to ask for.
#[derive(Debug)]
pub struct Config {
    pub ollama_url: String,
    pub model_name: String,
}

impl Clone for Config {
    fn clone(&self) -> (copy: Self)
        ensures
            copy == *self,
    {
        Config { ollama_url: self.ollama_url.clone(), model_name: self.model_name.clone() }
    }
}

impl Config {
    /// The backend on this machine, at its usual address, with the usual model.
    pub fn default() -> (config: Config)
        ensures
            config.ollama_url@ == "http://localhost:11434"@,
            config.model_name@ == "finalend/hermes-3-llama-3.1:8b"@,
    {
        Config {
            ollama_url: "http://localhost:11434".to_owned(),
            model_name: "finalend/hermes-3-llama-3.1:8b".to_owned(),
        }
    }

    /// The address to which a generation request goes.
    pub open spec fn generate_address(self) -> Seq<char> {
        self.ollama_url@ + "/api/generate"@
    }

    /// The address at which the backend lists its models.
    pub open spec fn tags_address(self) -> Seq<char> {
        self.ollama_url@ + "/api/tags"@
    }

    /// The address to which a generation request goes.
    pub fn generate_url(&self) -> (url: String)
        ensures
            url@ == self.generate_address(),
    {
        self.ollama_url.clone().concat("/api/generate")
    }

    /// The address at which the backend lists its models.
    pub fn tags_url(&self) -> (url: String)
        ensures
            url@ == self.tags_address(),
    {
        self.ollama_url.clone().concat("/api/tags")
    }
}

/// What the process is configured with from its environment.
#[derive(Debug)]
pub struct Settings {
    pub database_url: String,
    pub broker_api_url: String,
    pub broker_api_key: String,
}

} // verus!

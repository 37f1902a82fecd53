// SPDX-License-Identifier: GPL-3.0

//! Application configuration: where the server is and which model to ask.

use vstd::prelude::*;

verus! {

/// Chat endpoint of a server on this machine.
pub const DEFAULT_OLLAMA_URL: &'static str = "http://localhost:11434/api/chat";

/// Model that is asked where none was chosen.
pub const DEFAULT_MODEL: &'static str = "llama3.2:3b";

/// Application configuration.
#[derive(Debug, Clone, PartialEq, Eq)]
pub struct Config {
    /// Ollama API endpoint URL.
    pub ollama_url: String,
    /// Model to use for chat completions.
    pub model: String,
}

impl View for Config {
    type V = (Seq<char>, Seq<char>);

    /// A configuration is the pair of its endpoint and its model.
    open spec fn view(&self) -> (Seq<char>, Seq<char>) {
        (self.ollama_url@, self.model@)
    }
}

impl Default for Config {
    /// The default endpoint and the default model.
    fn default() -> (config: Self)
        ensures
            config@ == (DEFAULT_OLLAMA_URL@, DEFAULT_MODEL@),
    {
        Config { ollama_url: DEFAULT_OLLAMA_URL.to_owned(), model: DEFAULT_MODEL.to_owned() }
    }
}

} // verus!

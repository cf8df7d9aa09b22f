//! The notes-formatting side of the engine: the configuration of the
//! text-generation API and the fixed prompt that wraps raw release notes.
//!
//! The completion request itself is sent by the embedding program; everything
//! here computes from plain values.

use vstd::prelude::*;
use vstd::string::StringExecFns;

verus! {

/// Configuration of the notes-formatting API: the bearer key, the model name
/// and the base URL.
pub struct OpenAIClient {
    pub api_key: String,
    pub model: String,
    pub base_url: String,
}

/// The fixed instruction text placed before the raw notes in the formatting
/// prompt.
pub open spec fn prompt_prefix() -> Seq<char> {
    (r#"TEMPLATE: https://onezelis.atlassian.net/browse/[Ticket ID]
                EXAMPLE: https://onezelis.atlassian.net/browse/PRDY-3441
                EXPECTED RESULT EXAMPLE: * [PDE-3441](https://onezelis.atlassian.net/browse/PDE-3441) Fixed an issue by @Human-Glitch in https://github.com/mdx-dev/CostEngine/pull/2329

               INSTRUCTIONS:
                - Please follow this template and deep link each item with the ticket url as shown in the example. 
                - Always print the answer in a way that Github Release Notes understands as raw text, so the formatting is preserved when editing Github Release Notes.
                - Create a heading for each Ticket ID Type: PD, PDE, PRDY
                - Assign each line item to one of these headings by the ticket id number ascending:\n\n"#)@
}

/// The fixed trailing text placed after the raw notes.
pub open spec fn prompt_suffix() -> Seq<char> {
    ("\n            ")@
}

impl OpenAIClient {
    /// A client against the public text-generation API.
    pub fn new(api_key: String, model: &str) -> (r: OpenAIClient)
        ensures
            r.api_key == api_key,
            r.model@ == model@,
            r.base_url@ == "https://api.openai.com"@,
    {
        OpenAIClient {
            api_key,
            model: String::from_str(model),
            base_url: String::from_str("https://api.openai.com"),
        }
    }

    /// A client against a custom base URL.
    pub fn new_with_base_url(api_key: String, model: &str, base_url: String) -> (r: OpenAIClient)
        ensures
            r.api_key == api_key,
            r.model@ == model@,
            r.base_url == base_url,
    {
        OpenAIClient { api_key, model: String::from_str(model), base_url }
    }

    /// The completion endpoint under the configured base URL.
    pub fn chat_completions_url(&self) -> (r: String)
        ensures
            r@ == self.base_url@ + "/v1/chat/completions"@,
    {
        let mut url = self.base_url.clone();
        url.append("/v1/chat/completions");
        url
    }

    /// Wraps raw release notes in the fixed structural prompt handed to the
    /// text-generation call.
    pub fn build_release_notes_prompt(unformatted_notes: &str) -> (r: String)
        ensures
            r@ == prompt_prefix() + unformatted_notes@ + prompt_suffix(),
    {
        let mut prompt = String::from_str(
            r#"TEMPLATE: https://onezelis.atlassian.net/browse/[Ticket ID]
                EXAMPLE: https://onezelis.atlassian.net/browse/PRDY-3441
                EXPECTED RESULT EXAMPLE: * [PDE-3441](https://onezelis.atlassian.net/browse/PDE-3441) Fixed an issue by @Human-Glitch in https://github.com/mdx-dev/CostEngine/pull/2329

               INSTRUCTIONS:
                - Please follow this template and deep link each item with the ticket url as shown in the example. 
                - Always print the answer in a way that Github Release Notes understands as raw text, so the formatting is preserved when editing Github Release Notes.
                - Create a heading for each Ticket ID Type: PD, PDE, PRDY
                - Assign each line item to one of these headings by the ticket id number ascending:\n\n"#,
        );
        prompt.append(unformatted_notes);
        prompt.append("\n            ");
        prompt
    }
}

} // verus!

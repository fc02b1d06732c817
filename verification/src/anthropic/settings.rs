//! Settings of the Anthropic provider.

use vstd::prelude::*;

use crate::headers::Headers;
use crate::tool::opt_text;

verus! {

broadcast use vstd::string::group_string_axioms;

/// Settings for the Anthropic provider. Every field is optional; an unset
/// field falls back to the provider's default (`https://api.anthropic.com/v1`
/// as base URL, the `ANTHROPIC_API_KEY` variable as key, no extra headers,
/// `anthropic.messages` as name).
#[derive(Debug, Clone)]
pub struct AnthropicProviderSettings {
    /// URL prefix for API calls.
    pub base_url: Option<String>,
    /// API key sent in the `x-api-key` header.
    pub api_key: Option<String>,
    /// Extra headers sent with every request.
    pub headers: Option<Headers>,
    /// Provider name.
    pub name: Option<String>,
}

/// The header map of optional headers; absent headers count as empty.
pub open spec fn headers_or_empty(headers: Option<Headers>) -> Map<Seq<char>, Seq<char>> {
    match headers {
        Some(h) => h@,
        None => Map::empty(),
    }
}

impl AnthropicProviderSettings {
    /// Settings with nothing set.
    pub fn new() -> (s: Self)
        ensures
            s.base_url is None,
            s.api_key is None,
            s.headers is None,
            s.name is None,
    {
        AnthropicProviderSettings { base_url: None, api_key: None, headers: None, name: None }
    }

    /// Sets the base URL.
    pub fn with_base_url(self, base_url: &str) -> (s: Self)
        ensures
            opt_text(s.base_url) == Some(base_url@),
            s.api_key == self.api_key,
            s.headers == self.headers,
            s.name == self.name,
    {
        AnthropicProviderSettings { base_url: Some(base_url.to_string()), ..self }
    }

    /// Sets the API key.
    pub fn with_api_key(self, api_key: &str) -> (s: Self)
        ensures
            opt_text(s.api_key) == Some(api_key@),
            s.base_url == self.base_url,
            s.headers == self.headers,
            s.name == self.name,
    {
        AnthropicProviderSettings { api_key: Some(api_key.to_string()), ..self }
    }

    /// Replaces the custom headers.
    pub fn with_headers(self, headers: Headers) -> (s: Self)
        ensures
            s.headers == Some(headers),
            s.base_url == self.base_url,
            s.api_key == self.api_key,
            s.name == self.name,
    {
        AnthropicProviderSettings { headers: Some(headers), ..self }
    }

    /// Adds one header to the custom headers, replacing an earlier value of
    /// the same name; starts a header map when there is none.
    pub fn add_header(self, key: &str, value: &str) -> (s: Self)
        ensures
            s.headers is Some,
            s.headers->0@ == headers_or_empty(self.headers).insert(key@, value@),
            s.base_url == self.base_url,
            s.api_key == self.api_key,
            s.name == self.name,
    {
        let mut headers = match self.headers {
            Some(h) => h,
            None => Headers::new(),
        };
        headers.insert(key.to_string(), value.to_string());
        AnthropicProviderSettings {
            base_url: self.base_url,
            api_key: self.api_key,
            headers: Some(headers),
            name: self.name,
        }
    }

    /// Sets the provider name.
    pub fn with_name(self, name: &str) -> (s: Self)
        ensures
            opt_text(s.name) == Some(name@),
            s.base_url == self.base_url,
            s.api_key == self.api_key,
            s.headers == self.headers,
    {
        AnthropicProviderSettings { name: Some(name.to_string()), ..self }
    }
}

impl Default for AnthropicProviderSettings {
    fn default() -> (s: Self)
        ensures
            s.base_url is None,
            s.api_key is None,
            s.headers is None,
            s.name is None,
    {
        AnthropicProviderSettings::new()
    }
}

} // verus!

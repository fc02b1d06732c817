//! The web fetch tool (version 20250910): the model fetches the content of
//! a URL; citations are optional.

use vstd::prelude::*;

use crate::tool::{
    is_text_array, opt_text, JsonValue, ProviderDefinedToolFactory, ProviderDefinedToolOptions,
    Tool,
};

verus! {

broadcast use vstd::string::group_string_axioms;

/// The JSON schema of the tool's input.
pub const INPUT_SCHEMA: &'static str = r#"{
  "type": "object",
  "properties": {
    "url": {
      "type": "string",
      "description": "The URL to fetch."
    }
  },
  "required": [
    "url"
  ]
}"#;

/// The JSON schema of the tool's output.
pub const OUTPUT_SCHEMA: &'static str = r#"{
  "type": "object",
  "properties": {
    "type": {
      "type": "string",
      "enum": [
        "web_fetch_result"
      ]
    },
    "url": {
      "type": "string",
      "description": "Fetched content URL"
    },
    "content": {
      "type": "object",
      "properties": {
        "type": {
          "type": "string",
          "enum": [
            "document"
          ]
        },
        "title": {
          "type": "string",
          "description": "Title of the document"
        },
        "citations": {
          "type": "object",
          "properties": {
            "enabled": {
              "type": "boolean"
            }
          },
          "description": "Citation configuration for the document"
        },
        "source": {
          "oneOf": [
            {
              "type": "object",
              "properties": {
                "type": {
                  "type": "string",
                  "enum": [
                    "base64"
                  ]
                },
                "mediaType": {
                  "type": "string",
                  "enum": [
                    "application/pdf"
                  ]
                },
                "data": {
                  "type": "string"
                }
              },
              "required": [
                "type",
                "mediaType",
                "data"
              ]
            },
            {
              "type": "object",
              "properties": {
                "type": {
                  "type": "string",
                  "enum": [
                    "text"
                  ]
                },
                "mediaType": {
                  "type": "string",
                  "enum": [
                    "text/plain"
                  ]
                },
                "data": {
                  "type": "string"
                }
              },
              "required": [
                "type",
                "mediaType",
                "data"
              ]
            }
          ]
        }
      },
      "required": [
        "type",
        "title",
        "source"
      ]
    },
    "retrievedAt": {
      "type": [
        "string",
        "null"
      ],
      "description": "ISO 8601 timestamp when the content was retrieved"
    }
  },
  "required": [
    "type",
    "url",
    "content",
    "retrievedAt"
  ]
}"#;

/// What a web fetch builder has been told.
pub struct WebFetch20250910Config {
    pub max_uses: Option<i64>,
    pub allowed_domains: Option<Seq<Seq<char>>>,
    pub blocked_domains: Option<Seq<Seq<char>>>,
    pub citations_enabled: Option<bool>,
    pub max_content_tokens: Option<i64>,
    pub description: Option<Seq<char>>,
    pub needs_approval: bool,
}

/// Builds a web fetch tool of this version.
#[derive(Debug, Clone)]
pub struct WebFetch20250910Builder {
    max_uses: Option<i64>,
    allowed_domains: Option<Vec<String>>,
    blocked_domains: Option<Vec<String>>,
    citations_enabled: Option<bool>,
    max_content_tokens: Option<i64>,
    description: Option<String>,
    needs_approval: bool,
}

/// The views of optional strings.
pub open spec fn opt_texts(v: Option<Vec<String>>) -> Option<Seq<Seq<char>>> {
    match v {
        Some(d) => Some(d@.map_values(|t: String| t@)),
        None => None,
    }
}

impl View for WebFetch20250910Builder {
    type V = WebFetch20250910Config;

    closed spec fn view(&self) -> WebFetch20250910Config {
        WebFetch20250910Config {
            max_uses: self.max_uses,
            allowed_domains: opt_texts(self.allowed_domains),
            blocked_domains: opt_texts(self.blocked_domains),
            citations_enabled: self.citations_enabled,
            max_content_tokens: self.max_content_tokens,
            description: opt_text(self.description),
            needs_approval: self.needs_approval,
        }
    }
}

/// `s` with `k` added when `present`.
pub open spec fn with_key_if(s: Set<Seq<char>>, present: bool, k: Seq<char>) -> Set<Seq<char>> {
    if present {
        s.insert(k)
    } else {
        s
    }
}

/// `v` is the citation setting `{"enabled": enabled}`.
pub open spec fn is_citation_setting(v: JsonValue, enabled: bool) -> bool {
    &&& v is Object
    &&& v->Object_0@.len() == 1
    &&& v->Object_0@[0].0@ == "enabled"@
    &&& v->Object_0@[0].1 == JsonValue::Bool(enabled)
}

/// `args` are the arguments of a web fetch tool configured as `c`: one for
/// each setting that was made.
pub open spec fn web_fetch_args(c: WebFetch20250910Config, args: Map<Seq<char>, JsonValue>) -> bool {
    &&& args.dom() == with_key_if(
        with_key_if(
            with_key_if(
                with_key_if(
                    with_key_if(Set::empty(), c.max_uses is Some, "maxUses"@),
                    c.allowed_domains is Some,
                    "allowedDomains"@,
                ),
                c.blocked_domains is Some,
                "blockedDomains"@,
            ),
            c.citations_enabled is Some,
            "citations"@,
        ),
        c.max_content_tokens is Some,
        "maxContentTokens"@,
    )
    &&& c.max_uses matches Some(n) ==> args["maxUses"@] == JsonValue::Number(n)
    &&& c.allowed_domains matches Some(d) ==> is_text_array(args["allowedDomains"@], d)
    &&& c.blocked_domains matches Some(d) ==> is_text_array(args["blockedDomains"@], d)
    &&& c.citations_enabled matches Some(b) ==> is_citation_setting(args["citations"@], b)
    &&& c.max_content_tokens matches Some(n) ==> args["maxContentTokens"@] == JsonValue::Number(n)
}

impl WebFetch20250910Builder {
    /// A builder with nothing set.
    fn new() -> (b: Self)
        ensures
            b@.max_uses is None,
            b@.allowed_domains is None,
            b@.blocked_domains is None,
            b@.citations_enabled is None,
            b@.max_content_tokens is None,
            b@.description is None,
            !b@.needs_approval,
    {
        WebFetch20250910Builder {
            max_uses: None,
            allowed_domains: None,
            blocked_domains: None,
            citations_enabled: None,
            max_content_tokens: None,
            description: None,
            needs_approval: false,
        }
    }

    /// Limits how many fetches one request may make.
    pub fn max_uses(self, max_uses: i64) -> (b: Self)
        ensures
            b@ == (WebFetch20250910Config { max_uses: Some(max_uses), ..self@ }),
    {
        WebFetch20250910Builder { max_uses: Some(max_uses), ..self }
    }

    /// Fetches only from these domains.
    pub fn allowed_domains(self, domains: Vec<String>) -> (b: Self)
        ensures
            b@ == (WebFetch20250910Config {
                allowed_domains: Some(domains@.map_values(|t: String| t@)),
                ..self@
            }),
    {
        WebFetch20250910Builder { allowed_domains: Some(domains), ..self }
    }

    /// Never fetches from these domains.
    pub fn blocked_domains(self, domains: Vec<String>) -> (b: Self)
        ensures
            b@ == (WebFetch20250910Config {
                blocked_domains: Some(domains@.map_values(|t: String| t@)),
                ..self@
            }),
    {
        WebFetch20250910Builder { blocked_domains: Some(domains), ..self }
    }

    /// Turns citations of fetched documents on or off.
    pub fn citations(self, enabled: bool) -> (b: Self)
        ensures
            b@ == (WebFetch20250910Config { citations_enabled: Some(enabled), ..self@ }),
    {
        WebFetch20250910Builder { citations_enabled: Some(enabled), ..self }
    }

    /// Limits how many tokens of fetched content are kept.
    pub fn max_content_tokens(self, max_tokens: i64) -> (b: Self)
        ensures
            b@ == (WebFetch20250910Config { max_content_tokens: Some(max_tokens), ..self@ }),
    {
        WebFetch20250910Builder { max_content_tokens: Some(max_tokens), ..self }
    }

    /// Sets the description.
    pub fn with_description(self, description: &str) -> (b: Self)
        ensures
            b@ == (WebFetch20250910Config { description: Some(description@), ..self@ }),
    {
        WebFetch20250910Builder { description: Some(description.to_string()), ..self }
    }

    /// Sets whether calls wait for approval.
    pub fn with_needs_approval(self, needs_approval: bool) -> (b: Self)
        ensures
            b@ == (WebFetch20250910Config { needs_approval, ..self@ }),
    {
        WebFetch20250910Builder { needs_approval, ..self }
    }

    /// The tool (`anthropic.web_fetch_20250910`, called `web_fetch`) with what
    /// the builder was told.
    pub fn build(self) -> (t: Tool)
        ensures
            t.tool_type matches crate::tool::ToolType::ProviderDefined { args, .. } && web_fetch_args(
                self@,
                args@,
            ),
            t.is_provider_tool(
                "anthropic.web_fetch_20250910"@,
                "web_fetch"@,
                INPUT_SCHEMA@,
                Some(OUTPUT_SCHEMA@),
                self@.description,
                self@.needs_approval,
                t.tool_type->ProviderDefined_args@,
            ),
    {
        let factory = ProviderDefinedToolFactory::with_output(
            "anthropic.web_fetch_20250910",
            "web_fetch",
            INPUT_SCHEMA,
            OUTPUT_SCHEMA,
        );
        let mut opts = ProviderDefinedToolOptions::new();
        if let Some(desc) = &self.description {
            opts = opts.with_description(desc.as_str());
        }
        if self.needs_approval {
            opts = opts.with_needs_approval(true);
        }
        if let Some(max_uses) = self.max_uses {
            opts = opts.with_arg("maxUses", JsonValue::Number(max_uses));
        }
        if let Some(domains) = &self.allowed_domains {
            opts = opts.with_arg("allowedDomains", JsonValue::text_array(domains));
        }
        if let Some(domains) = &self.blocked_domains {
            opts = opts.with_arg("blockedDomains", JsonValue::text_array(domains));
        }
        if let Some(enabled) = self.citations_enabled {
            let mut entries: Vec<(String, JsonValue)> = Vec::new();
            entries.push(("enabled".to_string(), JsonValue::Bool(enabled)));
            let setting = JsonValue::Object(entries);
            opts = opts.with_arg("citations", setting);
        }
        if let Some(max_tokens) = self.max_content_tokens {
            opts = opts.with_arg("maxContentTokens", JsonValue::Number(max_tokens));
        }
        proof {
            reveal_strlit("maxUses");
            reveal_strlit("allowedDomains");
            reveal_strlit("blockedDomains");
            reveal_strlit("citations");
            reveal_strlit("maxContentTokens");
            reveal_strlit("enabled");
            assert("allowedDomains"@[0] != "blockedDomains"@[0]);
            assert("maxUses"@.len() != "maxContentTokens"@.len());
            assert("citations"@.len() != "maxContentTokens"@.len());
            assert(opts.args@.dom() =~= with_key_if(
                with_key_if(
                    with_key_if(
                        with_key_if(
                            with_key_if(Set::empty(), self@.max_uses is Some, "maxUses"@),
                            self@.allowed_domains is Some,
                            "allowedDomains"@,
                        ),
                        self@.blocked_domains is Some,
                        "blockedDomains"@,
                    ),
                    self@.citations_enabled is Some,
                    "citations"@,
                ),
                self@.max_content_tokens is Some,
                "maxContentTokens"@,
            ));
        }
        factory.create(opts)
    }
}

/// A builder for a web fetch tool of this version, with nothing set.
pub fn web_fetch_20250910() -> (b: WebFetch20250910Builder)
    ensures
        b@.max_uses is None,
        b@.allowed_domains is None,
        b@.blocked_domains is None,
        b@.citations_enabled is None,
        b@.max_content_tokens is None,
        b@.description is None,
        !b@.needs_approval,
{
    WebFetch20250910Builder::new()
}

} // verus!

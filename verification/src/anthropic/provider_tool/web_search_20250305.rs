//! The web search tool (version 20250305): the model searches the web and
//! cites what it finds.

use vstd::prelude::*;

use crate::anthropic::provider_tool::web_fetch_20250910::{opt_texts, with_key_if};
use crate::tool::{
    entries_are_pairs, is_text_array, is_text_entry, is_text_object, opt_text, JsonValue, ProviderDefinedToolFactory,
    ProviderDefinedToolOptions, Tool,
};

verus! {

broadcast use vstd::string::group_string_axioms;

/// The JSON schema of the tool's input.
pub const INPUT_SCHEMA: &'static str = r#"{
  "type": "object",
  "properties": {
    "query": {
      "type": "string",
      "description": "The search query to execute."
    }
  },
  "required": [
    "query"
  ]
}"#;

/// The JSON schema of the tool's output.
pub const OUTPUT_SCHEMA: &'static str = r#"{
  "type": "array",
  "items": {
    "type": "object",
    "properties": {
      "type": {
        "type": "string",
        "enum": [
          "web_search_result"
        ]
      },
      "url": {
        "type": "string",
        "description": "The URL of the source page."
      },
      "title": {
        "type": "string",
        "description": "The title of the source page."
      },
      "pageAge": {
        "type": [
          "string",
          "null"
        ],
        "description": "When the site was last updated"
      },
      "encryptedContent": {
        "type": "string",
        "description": "Encrypted content that must be passed back in multi-turn conversations for citations"
      }
    },
    "required": [
      "type",
      "url",
      "title",
      "pageAge",
      "encryptedContent"
    ]
  }
}"#;

/// The approximate location that searches are made from.
#[derive(Debug, Clone)]
struct UserLocation {
    city: Option<String>,
    region: Option<String>,
    country: Option<String>,
    timezone: Option<String>,
}

/// What is known of a user location.
pub struct UserLocationConfig {
    pub city: Option<Seq<char>>,
    pub region: Option<Seq<char>>,
    pub country: Option<Seq<char>>,
    pub timezone: Option<Seq<char>>,
}

/// What a web search builder has been told.
pub struct WebSearch20250305Config {
    pub max_uses: Option<i64>,
    pub allowed_domains: Option<Seq<Seq<char>>>,
    pub blocked_domains: Option<Seq<Seq<char>>>,
    pub user_location: Option<UserLocationConfig>,
    pub description: Option<Seq<char>>,
    pub needs_approval: bool,
}

/// Builds a web search tool of this version.
#[derive(Debug, Clone)]
pub struct WebSearch20250305Builder {
    max_uses: Option<i64>,
    allowed_domains: Option<Vec<String>>,
    blocked_domains: Option<Vec<String>>,
    user_location: Option<UserLocation>,
    description: Option<String>,
    needs_approval: bool,
}

spec fn location_view(l: Option<UserLocation>) -> Option<UserLocationConfig> {
    match l {
        Some(l) => Some(
            UserLocationConfig {
                city: opt_text(l.city),
                region: opt_text(l.region),
                country: opt_text(l.country),
                timezone: opt_text(l.timezone),
            },
        ),
        None => None,
    }
}

impl View for WebSearch20250305Builder {
    type V = WebSearch20250305Config;

    closed spec fn view(&self) -> WebSearch20250305Config {
        WebSearch20250305Config {
            max_uses: self.max_uses,
            allowed_domains: opt_texts(self.allowed_domains),
            blocked_domains: opt_texts(self.blocked_domains),
            user_location: location_view(self.user_location),
            description: opt_text(self.description),
            needs_approval: self.needs_approval,
        }
    }
}

/// `pairs` followed by `(key, v)` when `v` is set.
pub open spec fn with_pair_if(
    pairs: Seq<(Seq<char>, Seq<char>)>,
    key: Seq<char>,
    v: Option<Seq<char>>,
) -> Seq<(Seq<char>, Seq<char>)> {
    match v {
        Some(t) => pairs.push((key, t)),
        None => pairs,
    }
}

/// The entries of the location argument: its type, then each part that is
/// set, in the order city, region, country, time zone.
pub open spec fn location_pairs(l: UserLocationConfig) -> Seq<(Seq<char>, Seq<char>)> {
    with_pair_if(
        with_pair_if(
            with_pair_if(
                with_pair_if(seq![("type"@, "approximate"@)], "city"@, l.city),
                "region"@,
                l.region,
            ),
            "country"@,
            l.country,
        ),
        "timezone"@,
        l.timezone,
    )
}

/// `args` are the arguments of a web search tool configured as `c`: one
/// for each setting that was made.
pub open spec fn web_search_args(c: WebSearch20250305Config, args: Map<Seq<char>, JsonValue>) -> bool {
    &&& args.dom() == with_key_if(
        with_key_if(
            with_key_if(
                with_key_if(Set::empty(), c.max_uses is Some, "maxUses"@),
                c.allowed_domains is Some,
                "allowedDomains"@,
            ),
            c.blocked_domains is Some,
            "blockedDomains"@,
        ),
        c.user_location is Some,
        "userLocation"@,
    )
    &&& c.max_uses matches Some(n) ==> args["maxUses"@] == JsonValue::Number(n)
    &&& c.allowed_domains matches Some(d) ==> is_text_array(args["allowedDomains"@], d)
    &&& c.blocked_domains matches Some(d) ==> is_text_array(args["blockedDomains"@], d)
    &&& c.user_location matches Some(l) ==> is_text_object(args["userLocation"@], location_pairs(l))
}

/// Appends `(key, v)` to `entries` when `v` is set.
fn push_text_if(entries: &mut Vec<(String, JsonValue)>, key: &str, v: Option<String>)
    ensures
        final(entries)@.len() == old(entries)@.len() + (if v is Some { 1int } else { 0int }),
        forall|i: int|
            0 <= i < old(entries)@.len() ==> #[trigger] final(entries)@[i] == old(entries)@[i],
        v matches Some(t) ==> final(entries)@[old(entries)@.len() as int].0@ == key@
            && final(entries)@[old(entries)@.len() as int].1 is String && final(entries)@[old(
            entries,
        )@.len() as int].1->String_0@ == t@,
{
    if let Some(t) = v {
        entries.push((key.to_string(), JsonValue::String(t)));
    }
}

/// Appending a pair when a part is set keeps entries and pairs in step.
proof fn lemma_push_pair(
    before: Seq<(String, JsonValue)>,
    after: Seq<(String, JsonValue)>,
    pairs: Seq<(Seq<char>, Seq<char>)>,
    key: Seq<char>,
    v: Option<Seq<char>>,
)
    requires
        entries_are_pairs(before, pairs),
        after.len() == before.len() + (if v is Some { 1int } else { 0int }),
        forall|i: int| 0 <= i < before.len() ==> #[trigger] after[i] == before[i],
        v matches Some(t) ==> after[before.len() as int].0@ == key && after[before.len() as int].1
            is String && after[before.len() as int].1->String_0@ == t,
    ensures
        entries_are_pairs(after, with_pair_if(pairs, key, v)),
{
    let p = with_pair_if(pairs, key, v);
    assert forall|i: int| 0 <= i < p.len() implies is_text_entry(#[trigger] after[i], p[i]) by {
        if i < pairs.len() {
            assert(after[i] == before[i]);
            assert(p[i] == pairs[i]);
        } else {
            assert(p == pairs.push((key, v->0)));
        }
    }
}

impl UserLocation {
    /// The location as a JSON object of its type and the parts that are set.
    fn to_json(self) -> (r: JsonValue)
        ensures
            is_text_object(r, location_pairs(location_view(Some(self))->0)),
    {
        let ghost l = location_view(Some(self))->0;
        let mut entries: Vec<(String, JsonValue)> = Vec::new();
        entries.push(("type".to_string(), JsonValue::String("approximate".to_string())));
        let ghost e0 = entries@;
        push_text_if(&mut entries, "city", self.city);
        let ghost e1 = entries@;
        push_text_if(&mut entries, "region", self.region);
        let ghost e2 = entries@;
        push_text_if(&mut entries, "country", self.country);
        let ghost e3 = entries@;
        push_text_if(&mut entries, "timezone", self.timezone);
        let r = JsonValue::Object(entries);
        proof {
            let p0 = seq![("type"@, "approximate"@)];
            let p1 = with_pair_if(p0, "city"@, l.city);
            let p2 = with_pair_if(p1, "region"@, l.region);
            let p3 = with_pair_if(p2, "country"@, l.country);
            assert(entries_are_pairs(e0, p0));
            lemma_push_pair(e0, e1, p0, "city"@, l.city);
            lemma_push_pair(e1, e2, p1, "region"@, l.region);
            lemma_push_pair(e2, e3, p2, "country"@, l.country);
            lemma_push_pair(e3, r->Object_0@, p3, "timezone"@, l.timezone);
        }
        r
    }
}

impl WebSearch20250305Builder {
    /// A builder with nothing set.
    fn new() -> (b: Self)
        ensures
            b@.max_uses is None,
            b@.allowed_domains is None,
            b@.blocked_domains is None,
            b@.user_location is None,
            b@.description is None,
            !b@.needs_approval,
    {
        WebSearch20250305Builder {
            max_uses: None,
            allowed_domains: None,
            blocked_domains: None,
            user_location: None,
            description: None,
            needs_approval: false,
        }
    }

    /// Limits how many searches one request may make.
    pub fn max_uses(self, max_uses: i64) -> (b: Self)
        ensures
            b@ == (WebSearch20250305Config { max_uses: Some(max_uses), ..self@ }),
    {
        WebSearch20250305Builder { max_uses: Some(max_uses), ..self }
    }

    /// Searches only these domains.
    pub fn allowed_domains(self, domains: Vec<String>) -> (b: Self)
        ensures
            b@ == (WebSearch20250305Config {
                allowed_domains: Some(domains@.map_values(|t: String| t@)),
                ..self@
            }),
    {
        WebSearch20250305Builder { allowed_domains: Some(domains), ..self }
    }

    /// Never searches these domains.
    pub fn blocked_domains(self, domains: Vec<String>) -> (b: Self)
        ensures
            b@ == (WebSearch20250305Config {
                blocked_domains: Some(domains@.map_values(|t: String| t@)),
                ..self@
            }),
    {
        WebSearch20250305Builder { blocked_domains: Some(domains), ..self }
    }

    /// Searches as from the given city and, where given, region, country
    /// and time zone.
    pub fn user_location(
        self,
        city: &str,
        region: Option<&str>,
        country: Option<&str>,
        timezone: Option<&str>,
    ) -> (b: Self)
        ensures
            b@ == (WebSearch20250305Config {
                user_location: Some(
                    UserLocationConfig {
                        city: Some(city@),
                        region: match region {
                            Some(t) => Some(t@),
                            None => None,
                        },
                        country: match country {
                            Some(t) => Some(t@),
                            None => None,
                        },
                        timezone: match timezone {
                            Some(t) => Some(t@),
                            None => None,
                        },
                    },
                ),
                ..self@
            }),
    {
        let location = UserLocation {
            city: Some(city.to_string()),
            region: match region {
                Some(t) => Some(t.to_string()),
                None => None,
            },
            country: match country {
                Some(t) => Some(t.to_string()),
                None => None,
            },
            timezone: match timezone {
                Some(t) => Some(t.to_string()),
                None => None,
            },
        };
        WebSearch20250305Builder { user_location: Some(location), ..self }
    }

    /// Sets the description.
    pub fn with_description(self, description: &str) -> (b: Self)
        ensures
            b@ == (WebSearch20250305Config { description: Some(description@), ..self@ }),
    {
        WebSearch20250305Builder { description: Some(description.to_string()), ..self }
    }

    /// Sets whether calls wait for approval.
    pub fn with_needs_approval(self, needs_approval: bool) -> (b: Self)
        ensures
            b@ == (WebSearch20250305Config { needs_approval, ..self@ }),
    {
        WebSearch20250305Builder { needs_approval, ..self }
    }

    /// The tool (`anthropic.web_search_20250305`, called `web_search`) with
    /// what the builder was told.
    pub fn build(self) -> (t: Tool)
        ensures
            t.tool_type matches crate::tool::ToolType::ProviderDefined { args, .. } && web_search_args(
                self@,
                args@,
            ),
            t.is_provider_tool(
                "anthropic.web_search_20250305"@,
                "web_search"@,
                INPUT_SCHEMA@,
                Some(OUTPUT_SCHEMA@),
                self@.description,
                self@.needs_approval,
                t.tool_type->ProviderDefined_args@,
            ),
    {
        let ghost c = self@;
        let factory = ProviderDefinedToolFactory::with_output(
            "anthropic.web_search_20250305",
            "web_search",
            INPUT_SCHEMA,
            OUTPUT_SCHEMA,
        );
        let mut opts = ProviderDefinedToolOptions::new();
        if let Some(desc) = &self.description {
            opts = opts.with_description(desc.as_str());
        }
        if self.needs_approval {
            opts = opts.with_needs_approval(true);
        }
        if let Some(max_uses) = self.max_uses {
            opts = opts.with_arg("maxUses", JsonValue::Number(max_uses));
        }
        if let Some(domains) = &self.allowed_domains {
            opts = opts.with_arg("allowedDomains", JsonValue::text_array(domains));
        }
        if let Some(domains) = &self.blocked_domains {
            opts = opts.with_arg("blockedDomains", JsonValue::text_array(domains));
        }
        if let Some(location) = self.user_location {
            opts = opts.with_arg("userLocation", location.to_json());
        }
        proof {
            reveal_strlit("maxUses");
            reveal_strlit("allowedDomains");
            reveal_strlit("blockedDomains");
            reveal_strlit("userLocation");
            assert("allowedDomains"@[0] != "blockedDomains"@[0]);
            assert("maxUses"@.len() != "userLocation"@.len());
            assert(opts.args@.dom() =~= with_key_if(
                with_key_if(
                    with_key_if(
                        with_key_if(Set::empty(), c.max_uses is Some, "maxUses"@),
                        c.allowed_domains is Some,
                        "allowedDomains"@,
                    ),
                    c.blocked_domains is Some,
                    "blockedDomains"@,
                ),
                c.user_location is Some,
                "userLocation"@,
            ));
        }
        factory.create(opts)
    }
}

/// A builder for a web search tool of this version, with nothing set.
pub fn web_search_20250305() -> (b: WebSearch20250305Builder)
    ensures
        b@.max_uses is None,
        b@.allowed_domains is None,
        b@.blocked_domains is None,
        b@.user_location is None,
        b@.description is None,
        !b@.needs_approval,
{
    WebSearch20250305Builder::new()
}

} // verus!

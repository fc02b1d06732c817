//! Descriptions of tools that a model may call: JSON argument values, tool
//! options, and the factory that turns a provider's tool definition and a
//! caller's options into a tool.

use vstd::prelude::*;

use crate::headers::KeyedMap;

verus! {

broadcast use vstd::string::group_string_axioms;

/// A JSON value. Numbers are integers; objects keep their entries in order.
#[derive(Debug, PartialEq)]
pub enum JsonValue {
    Null,
    Bool(bool),
    Number(i64),
    String(String),
    Array(Vec<JsonValue>),
    Object(Vec<(String, JsonValue)>),
}

impl View for JsonValue {
    type V = JsonValue;

    open spec fn view(&self) -> JsonValue {
        *self
    }
}

/// `v` is a JSON array whose items are the strings `texts`, in order.
pub open spec fn is_text_array(v: JsonValue, texts: Seq<Seq<char>>) -> bool {
    &&& v is Array
    &&& v->Array_0@.len() == texts.len()
    &&& forall|i: int|
        0 <= i < texts.len() ==> (#[trigger] v->Array_0@[i] is String && v->Array_0@[i]->String_0@
            == texts[i])
}

/// The object entries `entries` are the string-valued pairs `pairs`, in
/// order.
pub open spec fn entries_are_pairs(
    entries: Seq<(String, JsonValue)>,
    pairs: Seq<(Seq<char>, Seq<char>)>,
) -> bool {
    &&& entries.len() == pairs.len()
    &&& forall|i: int| 0 <= i < pairs.len() ==> is_text_entry(#[trigger] entries[i], pairs[i])
}

/// The object entry `e` is the string-valued pair `pair`.
pub open spec fn is_text_entry(e: (String, JsonValue), pair: (Seq<char>, Seq<char>)) -> bool {
    &&& e.0@ == pair.0
    &&& e.1 is String
    &&& e.1->String_0@ == pair.1
}

/// `v` is a JSON object whose entries are the string-valued pairs `pairs`,
/// in order.
pub open spec fn is_text_object(v: JsonValue, pairs: Seq<(Seq<char>, Seq<char>)>) -> bool {
    &&& v is Object
    &&& entries_are_pairs(v->Object_0@, pairs)
}

/// The index of the first entry whose key is `key`, or the number of entries
/// when there is none.
pub open spec fn first_key_index(entries: Seq<(String, JsonValue)>, key: Seq<char>) -> nat
    decreases entries.len(),
{
    if entries.len() == 0 {
        0
    } else if entries[0].0@ == key {
        0
    } else {
        1 + first_key_index(entries.drop_first(), key)
    }
}

proof fn lemma_first_key_index(entries: Seq<(String, JsonValue)>, key: Seq<char>)
    ensures
        first_key_index(entries, key) <= entries.len(),
        first_key_index(entries, key) < entries.len() ==> entries[first_key_index(
            entries,
            key,
        ) as int].0@ == key,
        forall|j: int| 0 <= j < first_key_index(entries, key) ==> #[trigger] entries[j].0@ != key,
    decreases entries.len(),
{
    if entries.len() > 0 && entries[0].0@ != key {
        let t = entries.drop_first();
        lemma_first_key_index(t, key);
        assert forall|j: int| 0 <= j < first_key_index(entries, key) implies #[trigger] entries[j].0@
            != key by {
            if j > 0 {
                assert(entries[j] == t[j - 1]);
            }
        }
    }
}

/// Two JSON values are alike item by item: the same scalars and strings,
/// and arrays and objects of alike items under the same keys, in order.
pub open spec fn same_json(a: JsonValue, b: JsonValue) -> bool
    decreases a, 1int,
{
    match a {
        JsonValue::Array(xs) => b matches JsonValue::Array(ys) && same_items(xs@, ys@),
        JsonValue::Object(xs) => b matches JsonValue::Object(ys) && same_entries(xs@, ys@),
        _ => a == b,
    }
}

/// Two lists of JSON values are alike item by item.
pub open spec fn same_items(xs: Seq<JsonValue>, ys: Seq<JsonValue>) -> bool
    decreases xs, 0int,
{
    if xs.len() == 0 {
        ys.len() == 0
    } else {
        &&& ys.len() == xs.len()
        &&& same_items(xs.drop_last(), ys.drop_last())
        &&& same_json(xs.last(), ys.last())
    }
}

/// Two lists of object entries have the same keys and alike values, entry
/// by entry.
pub open spec fn same_entries(xs: Seq<(String, JsonValue)>, ys: Seq<(String, JsonValue)>) -> bool
    decreases xs, 0int,
{
    if xs.len() == 0 {
        ys.len() == 0
    } else {
        &&& ys.len() == xs.len()
        &&& same_entries(xs.drop_last(), ys.drop_last())
        &&& xs.last().0 == ys.last().0
        &&& same_json(xs.last().1, ys.last().1)
    }
}

impl JsonValue {
    /// A copy of the value, item by item.
    pub fn deep_clone(&self) -> (r: JsonValue)
        ensures
            same_json(*self, r),
        decreases self,
    {
        match self {
            JsonValue::Null => JsonValue::Null,
            JsonValue::Bool(b) => JsonValue::Bool(*b),
            JsonValue::Number(n) => JsonValue::Number(*n),
            JsonValue::String(s) => JsonValue::String(s.clone()),
            JsonValue::Array(items) => {
                let n = items.len();
                let mut out: Vec<JsonValue> = Vec::new();
                let mut i: usize = 0;
                assert(items@.take(0) =~= Seq::<JsonValue>::empty());
                while i < n
                    invariant
                        n == items@.len(),
                        i <= n,
                        *self == JsonValue::Array(*items),
                        same_items(items@.take(i as int), out@),
                    decreases n - i,
                {
                    assert(decreases_to!(self => items@[i as int])) by {
                        assert(decreases_to!(*self => self->Array_0));
                        assert(decreases_to!(*items => items@));
                        assert(decreases_to!(items@ => items@[i as int]));
                    }
                    let ghost before = out@;
                    out.push(items[i].deep_clone());
                    assert(items@.take(i + 1).drop_last() =~= items@.take(i as int));
                    assert(out@.drop_last() =~= before);
                    i = i + 1;
                }
                assert(items@.take(n as int) =~= items@);
                JsonValue::Array(out)
            },
            JsonValue::Object(entries) => {
                let n = entries.len();
                let mut out: Vec<(String, JsonValue)> = Vec::new();
                let mut i: usize = 0;
                assert(entries@.take(0) =~= Seq::<(String, JsonValue)>::empty());
                while i < n
                    invariant
                        n == entries@.len(),
                        i <= n,
                        *self == JsonValue::Object(*entries),
                        same_entries(entries@.take(i as int), out@),
                    decreases n - i,
                {
                    assert(decreases_to!(self => entries@[i as int].1)) by {
                        assert(decreases_to!(*self => self->Object_0));
                        assert(decreases_to!(*entries => entries@));
                        assert(decreases_to!(entries@ => entries@[i as int]));
                        assert(decreases_to!(entries@[i as int] => entries@[i as int].1));
                    }
                    let ghost before = out@;
                    let key = entries[i].0.clone();
                    let value = entries[i].1.deep_clone();
                    out.push((key, value));
                    assert(entries@.take(i + 1).drop_last() =~= entries@.take(i as int));
                    assert(out@.drop_last() =~= before);
                    i = i + 1;
                }
                assert(entries@.take(n as int) =~= entries@);
                JsonValue::Object(out)
            },
        }
    }

    /// The value of the first entry named `key` when `self` is an object.
    pub open spec fn spec_lookup(&self, key: Seq<char>) -> Option<JsonValue> {
        match self {
            JsonValue::Object(entries) => {
                let i = first_key_index(entries@, key);
                if i < entries@.len() {
                    Some(entries@[i as int].1)
                } else {
                    None
                }
            },
            _ => None,
        }
    }

    /// The value of the first entry named `key`; `None` when `self` is not an
    /// object or has no such entry.
    pub fn get(&self, key: &str) -> (r: Option<&JsonValue>)
        ensures
            match r {
                Some(v) => self.spec_lookup(key@) == Some(*v),
                None => self.spec_lookup(key@) is None,
            },
    {
        match self {
            JsonValue::Object(entries) => {
                proof {
                    lemma_first_key_index(entries@, key@);
                }
                let k = key.to_string();
                let n = entries.len();
                let mut i: usize = 0;
                while i < n
                    invariant
                        n == entries@.len(),
                        k@ == key@,
                        *self == JsonValue::Object(*entries),
                        i <= n,
                        i <= first_key_index(entries@, key@),
                        first_key_index(entries@, key@) <= n,
                        first_key_index(entries@, key@) < n ==> entries@[first_key_index(
                            entries@,
                            key@,
                        ) as int].0@ == key@,
                        forall|j: int|
                            0 <= j < first_key_index(entries@, key@) ==> #[trigger] entries@[j].0@
                                != key@,
                    decreases n - i,
                {
                    if entries[i].0 == k {
                        return Some(&entries[i].1);
                    }
                    i = i + 1;
                }
                None
            },
            _ => None,
        }
    }

    /// A JSON array of the given strings, in order.
    pub fn text_array(texts: &Vec<String>) -> (r: JsonValue)
        ensures
            is_text_array(r, texts@.map_values(|t: String| t@)),
    {
        let n = texts.len();
        let mut items: Vec<JsonValue> = Vec::new();
        let mut i: usize = 0;
        while i < n
            invariant
                n == texts@.len(),
                i <= n,
                items@.len() == i,
                forall|j: int|
                    0 <= j < i ==> (#[trigger] items@[j] is String && items@[j]->String_0@
                        == texts@[j]@),
            decreases n - i,
        {
            items.push(JsonValue::String(texts[i].clone()));
            i = i + 1;
        }
        JsonValue::Array(items)
    }
}

impl Clone for JsonValue {
    /// A copy alike item by item.
    fn clone(&self) -> (r: JsonValue)
        ensures
            same_json(*self, r),
    {
        self.deep_clone()
    }
}

/// The arguments of a provider-defined tool, by name.
pub type ToolArgs = KeyedMap<JsonValue>;

/// Whether a call of a tool waits for the user's approval.
#[derive(Debug, Clone, Copy, PartialEq, Eq)]
pub enum NeedsApproval {
    No,
    Yes,
}

/// The approval setting that a yes-or-no option gives.
pub open spec fn approval_of(needs_approval: bool) -> NeedsApproval {
    if needs_approval {
        NeedsApproval::Yes
    } else {
        NeedsApproval::No
    }
}

/// What kind of tool a tool is.
#[derive(Debug, Clone)]
pub enum ToolType {
    /// A tool that the provider defines and runs: `id` names the provider's
    /// tool, `name` is the name the model calls it by.
    ProviderDefined { id: String, name: String, args: ToolArgs },
}

/// A tool as handed to a model. Schemas are JSON texts.
#[derive(Debug, Clone)]
pub struct Tool {
    pub tool_type: ToolType,
    pub description: Option<String>,
    pub input_schema: String,
    pub output_schema: Option<String>,
    pub needs_approval: NeedsApproval,
}

/// The view of an optional string.
pub open spec fn opt_text(s: Option<String>) -> Option<Seq<char>> {
    match s {
        Some(t) => Some(t@),
        None => None,
    }
}

impl Tool {
    /// Whether the tool is defined by the provider.
    pub fn is_provider_defined(&self) -> (r: bool)
        ensures
            r == (self.tool_type is ProviderDefined),
    {
        match &self.tool_type {
            ToolType::ProviderDefined { .. } => true,
        }
    }

    /// `self` is the provider-defined tool `id` named `name`, with the given
    /// schemas, description, approval setting and arguments.
    pub open spec fn is_provider_tool(
        &self,
        id: Seq<char>,
        name: Seq<char>,
        input_schema: Seq<char>,
        output_schema: Option<Seq<char>>,
        description: Option<Seq<char>>,
        needs_approval: bool,
        args: Map<Seq<char>, JsonValue>,
    ) -> bool {
        &&& self.tool_type matches ToolType::ProviderDefined { id: i, name: n, args: a }
        &&& i@ == id
        &&& n@ == name
        &&& a@ == args
        &&& self.input_schema@ == input_schema
        &&& opt_text(self.output_schema) == output_schema
        &&& opt_text(self.description) == description
        &&& self.needs_approval == approval_of(needs_approval)
    }
}

/// What a caller sets on a provider-defined tool.
#[derive(Debug, Clone)]
pub struct ProviderDefinedToolOptions {
    pub description: Option<String>,
    pub needs_approval: bool,
    pub args: ToolArgs,
}

impl ProviderDefinedToolOptions {
    /// No description, no approval, no arguments.
    pub fn new() -> (r: Self)
        ensures
            r.description is None,
            !r.needs_approval,
            r.args@ == Map::<Seq<char>, JsonValue>::empty(),
    {
        ProviderDefinedToolOptions { description: None, needs_approval: false, args: KeyedMap::new() }
    }

    /// Sets the description.
    pub fn with_description(self, description: &str) -> (r: Self)
        ensures
            opt_text(r.description) == Some(description@),
            r.needs_approval == self.needs_approval,
            r.args@ == self.args@,
    {
        ProviderDefinedToolOptions { description: Some(description.to_string()), ..self }
    }

    /// Sets whether calls wait for approval.
    pub fn with_needs_approval(self, needs_approval: bool) -> (r: Self)
        ensures
            r.description == self.description,
            r.needs_approval == needs_approval,
            r.args@ == self.args@,
    {
        ProviderDefinedToolOptions { needs_approval, ..self }
    }

    /// Sets the argument `name` to `value`, replacing an earlier value.
    pub fn with_arg(self, name: &str, value: JsonValue) -> (r: Self)
        ensures
            r.description == self.description,
            r.needs_approval == self.needs_approval,
            r.args@ == self.args@.insert(name@, value),
    {
        let mut opts = self;
        opts.args.insert(name.to_string(), value);
        opts
    }
}

impl Default for ProviderDefinedToolOptions {
    fn default() -> (r: Self)
        ensures
            r.description is None,
            !r.needs_approval,
            r.args@ == Map::<Seq<char>, JsonValue>::empty(),
    {
        ProviderDefinedToolOptions::new()
    }
}

/// The description that optional options set.
pub open spec fn description_of(options: Option<ProviderDefinedToolOptions>) -> Option<Seq<char>> {
    match options {
        Some(o) => opt_text(o.description),
        None => None,
    }
}

/// Whether optional options ask for approval.
pub open spec fn approval_requested(options: Option<ProviderDefinedToolOptions>) -> bool {
    match options {
        Some(o) => o.needs_approval,
        None => false,
    }
}

/// The arguments that optional options set.
pub open spec fn args_of(options: Option<ProviderDefinedToolOptions>) -> Map<Seq<char>, JsonValue> {
    match options {
        Some(o) => o.args@,
        None => Map::empty(),
    }
}

/// The given options, or the default ones.
pub fn options_or_default(options: Option<ProviderDefinedToolOptions>) -> (r:
    ProviderDefinedToolOptions)
    ensures
        match options {
            Some(o) => r == o,
            None => r.description is None && !r.needs_approval && r.args@ == Map::<
                Seq<char>,
                JsonValue,
            >::empty(),
        },
{
    match options {
        Some(o) => o,
        None => ProviderDefinedToolOptions::new(),
    }
}

/// A provider's definition of a tool, from which tools are made.
#[derive(Debug, Clone)]
pub struct ProviderDefinedToolFactory {
    pub id: String,
    pub name: String,
    pub input_schema: String,
    pub output_schema: Option<String>,
}

impl ProviderDefinedToolFactory {
    /// A definition with an input schema only.
    pub fn new(id: &str, name: &str, input_schema: &str) -> (f: Self)
        ensures
            f.id@ == id@,
            f.name@ == name@,
            f.input_schema@ == input_schema@,
            f.output_schema is None,
    {
        ProviderDefinedToolFactory {
            id: id.to_string(),
            name: name.to_string(),
            input_schema: input_schema.to_string(),
            output_schema: None,
        }
    }

    /// A definition with an input schema and an output schema.
    pub fn with_output(id: &str, name: &str, input_schema: &str, output_schema: &str) -> (f: Self)
        ensures
            f.id@ == id@,
            f.name@ == name@,
            f.input_schema@ == input_schema@,
            opt_text(f.output_schema) == Some(output_schema@),
    {
        ProviderDefinedToolFactory {
            id: id.to_string(),
            name: name.to_string(),
            input_schema: input_schema.to_string(),
            output_schema: Some(output_schema.to_string()),
        }
    }

    /// The tool that this definition and `options` make.
    pub fn create(&self, options: ProviderDefinedToolOptions) -> (t: Tool)
        ensures
            t.is_provider_tool(
                self.id@,
                self.name@,
                self.input_schema@,
                opt_text(self.output_schema),
                opt_text(options.description),
                options.needs_approval,
                options.args@,
            ),
    {
        let output_schema = match &self.output_schema {
            Some(s) => Some(s.clone()),
            None => None,
        };
        let needs_approval = if options.needs_approval {
            NeedsApproval::Yes
        } else {
            NeedsApproval::No
        };
        Tool {
            tool_type: ToolType::ProviderDefined {
                id: self.id.clone(),
                name: self.name.clone(),
                args: options.args,
            },
            description: options.description,
            input_schema: self.input_schema.clone(),
            output_schema,
            needs_approval,
        }
    }
}

} // verus!

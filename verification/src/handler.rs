//! Data that MCP handlers exchange with the protocol layer: tool, resource and
//! prompt descriptions, log levels, and their JSON forms.

use vstd::prelude::*;
use crate::json::{Json, JsonV, opt_str_view, opt_chars, obj4, array_of, items_view, push_member, no_members,
    object_of, members_view};

verus! {

broadcast use vstd::string::group_string_axioms;

/// Log levels of log-message notifications, from least to most severe.
#[derive(Debug, Clone, Copy, PartialEq, Eq, Structural)]
pub enum LogLevel {
    Debug,
    Info,
    Warning,
    Error,
}

/// A tool as listed by `tools/list`.
#[derive(Debug)]
pub struct ToolDefinition {
    pub name: String,
    pub description: String,
    pub input_schema: Json,
    pub output_schema: Json,
}

/// Metadata of a resource, as listed by `resources/list`.
#[derive(Debug)]
pub struct ResourceInfo {
    pub uri: String,
    pub name: String,
    pub description: Option<String>,
    pub mime_type: Option<String>,
}

/// The content of a resource, as read by `resources/read`.
#[derive(Debug)]
pub struct ResourceContent {
    pub uri: String,
    pub mime_type: Option<String>,
    pub content: String,
}

/// A prompt template, as listed by `prompts/list`.
#[derive(Debug)]
pub struct PromptInfo {
    pub name: String,
    pub description: Option<String>,
    pub arguments: Vec<PromptArgument>,
}

/// One argument of a prompt template.
#[derive(Debug)]
pub struct PromptArgument {
    pub name: String,
    pub description: Option<String>,
    pub required: bool,
}

/// The messages of a prompt, as returned by `prompts/get`.
#[derive(Debug)]
pub struct PromptContent {
    pub messages: Vec<PromptMessage>,
}

/// One message of a prompt.
#[derive(Debug)]
pub struct PromptMessage {
    pub role: String,
    pub content: String,
}

/// The JSON form of a tool in a tools/list result.
pub open spec fn tool_view(t: ToolDefinition) -> JsonV {
    JsonV::Object(
        seq![
            ("name"@, JsonV::Str(t.name@)),
            ("description"@, JsonV::Str(t.description@)),
            ("inputSchema"@, t.input_schema@),
            ("outputSchema"@, t.output_schema@),
        ],
    )
}

/// The JSON form of a tool definition (`ToolDefinition::to_json`).
pub open spec fn tool_json_view(t: ToolDefinition) -> JsonV {
    JsonV::Object(
        seq![
            ("name"@, JsonV::Str(t.name@)),
            ("description"@, JsonV::Str(t.description@)),
            ("input_schema"@, t.input_schema@),
            ("output_schema"@, t.output_schema@),
        ],
    )
}

/// Members for optional fields: present only when the value is.
pub open spec fn opt_member(key: Seq<char>, v: Option<String>) -> Seq<(Seq<char>, JsonV)> {
    match v {
        Some(s) => seq![(key, JsonV::Str(s@))],
        None => Seq::empty(),
    }
}

/// The JSON form of a resource in a resources/list result.
pub open spec fn resource_view(r: ResourceInfo) -> JsonV {
    JsonV::Object(
        seq![("uri"@, JsonV::Str(r.uri@)), ("name"@, JsonV::Str(r.name@))] + opt_member(
            "description"@,
            r.description,
        ) + opt_member("mimeType"@, r.mime_type),
    )
}

/// The JSON form of a prompt argument.
pub open spec fn argument_view(a: PromptArgument) -> JsonV {
    JsonV::Object(
        seq![("name"@, JsonV::Str(a.name@)), ("required"@, JsonV::Bool(a.required))] + opt_member(
            "description"@,
            a.description,
        ),
    )
}

/// The JSON form of a prompt in a prompts/list result: arguments appear only when there are some.
pub open spec fn prompt_view(p: PromptInfo) -> JsonV {
    JsonV::Object(
        seq![("name"@, JsonV::Str(p.name@))] + opt_member("description"@, p.description) + if p.arguments@.len()
            > 0 {
            seq![("arguments"@, JsonV::Array(Seq::new(p.arguments@.len(), |i: int| argument_view(p.arguments@[i]))))]
        } else {
            Seq::empty()
        },
    )
}

/// The JSON form of a prompt message: its role and a text content block.
pub open spec fn message_view(m: PromptMessage) -> JsonV {
    JsonV::Object(
        seq![
            ("role"@, JsonV::Str(m.role@)),
            ("content"@, JsonV::Object(seq![("type"@, JsonV::Str("text"@)), ("text"@, JsonV::Str(m.content@))])),
        ],
    )
}

/// The JSON form of resource content in a resources/read result.
pub open spec fn content_view(c: ResourceContent) -> JsonV {
    JsonV::Object(
        seq![
            ("uri"@, JsonV::Str(c.uri@)),
            ("mimeType"@, opt_str_view(opt_chars(c.mime_type))),
            ("text"@, JsonV::Str(c.content@)),
        ],
    )
}

fn push_opt_member(es: &mut Vec<(String, Json)>, key: &str, v: &Option<String>)
    ensures
        members_view(final(es)@) == members_view(old(es)@) + opt_member(key@, *v),
{
    match v {
        Some(s) => {
            push_member(es, key, Json::string(s.as_str()));
            assert(members_view(old(es)@).push((key@, JsonV::Str(s@))) =~= members_view(old(es)@)
                + opt_member(key@, *v));
        },
        None => {
            assert(members_view(old(es)@) =~= members_view(old(es)@) + opt_member(key@, *v));
        },
    }
}

impl ToolDefinition {
    /// The JSON form of this tool definition.
    pub fn to_json(&self) -> (r: Json)
        ensures
            r@ == tool_json_view(*self),
    {
        obj4(
            "name",
            Json::string(self.name.as_str()),
            "description",
            Json::string(self.description.as_str()),
            "input_schema",
            self.input_schema.deep_copy(),
            "output_schema",
            self.output_schema.deep_copy(),
        )
    }

    /// The JSON form of this tool in a tools/list result.
    pub fn to_list_entry(&self) -> (r: Json)
        ensures
            r@ == tool_view(*self),
    {
        obj4(
            "name",
            Json::string(self.name.as_str()),
            "description",
            Json::string(self.description.as_str()),
            "inputSchema",
            self.input_schema.deep_copy(),
            "outputSchema",
            self.output_schema.deep_copy(),
        )
    }
}

impl ResourceInfo {
    /// The JSON form of this resource in a resources/list result.
    pub fn to_list_entry(&self) -> (r: Json)
        ensures
            r@ == resource_view(*self),
    {
        let mut es = no_members();
        push_member(&mut es, "uri", Json::string(self.uri.as_str()));
        push_member(&mut es, "name", Json::string(self.name.as_str()));
        push_opt_member(&mut es, "description", &self.description);
        push_opt_member(&mut es, "mimeType", &self.mime_type);
        let ghost base = seq![("uri"@, JsonV::Str(self.uri@)), ("name"@, JsonV::Str(self.name@))];
        assert(members_view(es@) =~= base + opt_member("description"@, self.description) + opt_member(
            "mimeType"@,
            self.mime_type,
        ));
        object_of(es)
    }
}

impl PromptArgument {
    /// The JSON form of this argument.
    pub fn to_list_entry(&self) -> (r: Json)
        ensures
            r@ == argument_view(*self),
    {
        let mut es = no_members();
        push_member(&mut es, "name", Json::string(self.name.as_str()));
        push_member(&mut es, "required", Json::Bool(self.required));
        push_opt_member(&mut es, "description", &self.description);
        assert(members_view(es@) =~= seq![("name"@, JsonV::Str(self.name@)), ("required"@, JsonV::Bool(self.required))]
            + opt_member("description"@, self.description));
        object_of(es)
    }
}

impl PromptInfo {
    /// The JSON form of this prompt in a prompts/list result.
    pub fn to_list_entry(&self) -> (r: Json)
        ensures
            r@ == prompt_view(*self),
    {
        let mut es = no_members();
        push_member(&mut es, "name", Json::string(self.name.as_str()));
        push_opt_member(&mut es, "description", &self.description);
        if self.arguments.len() > 0 {
            let mut items: Vec<Json> = Vec::new();
            let mut i: usize = 0;
            while i < self.arguments.len()
                invariant
                    i <= self.arguments@.len(),
                    items@.len() == i,
                    forall|k: int| 0 <= k < i ==> (#[trigger] items@[k])@ == argument_view(self.arguments@[k]),
                decreases self.arguments.len() - i,
            {
                items.push(self.arguments[i].to_list_entry());
                i = i + 1;
            }
            let arr = array_of(items);
            assert(items_view(items@) =~= Seq::new(self.arguments@.len(), |k: int| argument_view(self.arguments@[k])));
            push_member(&mut es, "arguments", arr);
        }
        assert(members_view(es@) =~= seq![("name"@, JsonV::Str(self.name@))] + opt_member("description"@, self.description)
            + if self.arguments@.len() > 0 {
            seq![("arguments"@, JsonV::Array(Seq::new(self.arguments@.len(), |i: int| argument_view(self.arguments@[i]))))]
        } else {
            Seq::empty()
        });
        object_of(es)
    }
}

impl PromptMessage {
    /// The JSON form of this message.
    pub fn to_list_entry(&self) -> (r: Json)
        ensures
            r@ == message_view(*self),
    {
        let content = crate::json::obj2("type", Json::string("text"), "text", Json::string(self.content.as_str()));
        crate::json::obj2("role", Json::string(self.role.as_str()), "content", content)
    }
}

impl ResourceContent {
    /// The JSON form of this content in a resources/read result.
    pub fn to_list_entry(&self) -> (r: Json)
        ensures
            r@ == content_view(*self),
    {
        crate::json::obj3(
            "uri",
            Json::string(self.uri.as_str()),
            "mimeType",
            crate::json::opt_string(&self.mime_type),
            "text",
            Json::string(self.content.as_str()),
        )
    }
}

} // verus!

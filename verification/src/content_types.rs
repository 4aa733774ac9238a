//! Content that tools return: text, images and resources, and the response that
//! carries them.

use vstd::prelude::*;
use crate::json::{Json, JsonV, array_of, items_view, members_view, no_members, object_of, push_member};
use crate::text::{append_str, copy_str, dec_text, push_decimal};

verus! {

broadcast use vstd::string::group_string_axioms;

/// One piece of content.
#[derive(Debug)]
#[allow(inconsistent_fields)]
pub enum McpContent {
    Text { text: String },
    Image { data: String, mime_type: Option<String> },
    Resource { uri: String, mime_type: Option<String>, text: Option<String> },
}

/// A member that is present only when the value is.
pub open spec fn opt_text_member(key: Seq<char>, v: Option<String>) -> Seq<(Seq<char>, JsonV)> {
    match v {
        Some(s) => seq![(key, JsonV::Str(s@))],
        None => Seq::empty(),
    }
}

/// The members of the JSON form of a piece of content: tagged by `type`, absent options
/// left out.
pub open spec fn content_members(c: McpContent) -> Seq<(Seq<char>, JsonV)> {
    match c {
        McpContent::Text { text } => seq![("type"@, JsonV::Str("text"@)), ("text"@, JsonV::Str(text@))],
        McpContent::Image { data, mime_type } => seq![("type"@, JsonV::Str("image"@)), ("data"@, JsonV::Str(data@))]
            + opt_text_member("mime_type"@, mime_type),
        McpContent::Resource { uri, mime_type, text } => seq![
            ("type"@, JsonV::Str("resource"@)),
            ("uri"@, JsonV::Str(uri@)),
        ] + opt_text_member("mime_type"@, mime_type) + opt_text_member("text"@, text),
    }
}

/// The JSON form of a piece of content.
pub open spec fn content_json(c: McpContent) -> JsonV {
    JsonV::Object(content_members(c))
}

fn push_opt_text(es: &mut Vec<(String, Json)>, key: &str, v: &Option<String>)
    ensures
        members_view(final(es)@) == members_view(old(es)@) + opt_text_member(key@, *v),
{
    match v {
        Some(s) => {
            push_member(es, key, Json::string(s.as_str()));
            assert(members_view(old(es)@).push((key@, JsonV::Str(s@))) =~= members_view(old(es)@)
                + opt_text_member(key@, *v));
        },
        None => {
            assert(members_view(old(es)@) =~= members_view(old(es)@) + opt_text_member(key@, *v));
        },
    }
}

impl McpContent {
    /// Text content.
    pub fn text(text: String) -> (r: Self)
        ensures
            r == (McpContent::Text { text }),
    {
        McpContent::Text { text }
    }

    /// Image content: base64 data and its MIME type.
    pub fn image(data: String, mime_type: Option<String>) -> (r: Self)
        ensures
            r == (McpContent::Image { data, mime_type }),
    {
        McpContent::Image { data, mime_type }
    }

    /// A resource reference, with its MIME type and text when known.
    pub fn resource(uri: String, mime_type: Option<String>, text: Option<String>) -> (r: Self)
        ensures
            r == (McpContent::Resource { uri, mime_type, text }),
    {
        McpContent::Resource { uri, mime_type, text }
    }

    /// The JSON form of this content.
    pub fn to_json(&self) -> (r: Json)
        ensures
            r@ == content_json(*self),
    {
        let mut es = no_members();
        match self {
            McpContent::Text { text } => {
                push_member(&mut es, "type", Json::string("text"));
                push_member(&mut es, "text", Json::string(text.as_str()));
            },
            McpContent::Image { data, mime_type } => {
                push_member(&mut es, "type", Json::string("image"));
                push_member(&mut es, "data", Json::string(data.as_str()));
                push_opt_text(&mut es, "mime_type", mime_type);
            },
            McpContent::Resource { uri, mime_type, text } => {
                push_member(&mut es, "type", Json::string("resource"));
                push_member(&mut es, "uri", Json::string(uri.as_str()));
                push_opt_text(&mut es, "mime_type", mime_type);
                push_opt_text(&mut es, "text", text);
            },
        }
        assert(members_view(es@) =~= content_members(*self));
        object_of(es)
    }
}

/// The response of a tool: its content, optional structured data, and whether it
/// reports an error.
#[derive(Debug)]
pub struct McpResponse {
    pub content: Vec<McpContent>,
    pub data: Option<Json>,
    pub is_error: bool,
}

/// The members of the JSON form of a response; `data` is left out when absent.
pub open spec fn response_members(r: McpResponse) -> Seq<(Seq<char>, JsonV)> {
    seq![("content"@, JsonV::Array(Seq::new(r.content@.len(), |i: int| content_json(r.content@[i]))))] + (match r.data {
        Some(d) => seq![("data"@, d@)],
        None => Seq::empty(),
    }) + seq![("is_error"@, JsonV::Bool(r.is_error))]
}

/// The JSON form of a response.
pub open spec fn response_json(r: McpResponse) -> JsonV {
    JsonV::Object(response_members(r))
}

impl McpResponse {
    /// A response with this content, no data, not an error.
    pub fn new(content: Vec<McpContent>) -> (r: Self)
        ensures
            r.content == content,
            r.data is None,
            !r.is_error,
    {
        McpResponse { content, data: None, is_error: false }
    }

    /// A response with one text.
    pub fn text(text: String) -> (r: Self)
        ensures
            r.content@ == seq![McpContent::Text { text }],
            r.data is None,
            !r.is_error,
    {
        let mut content: Vec<McpContent> = Vec::new();
        content.push(McpContent::text(text));
        McpResponse::new(content)
    }

    /// A response with one text and structured data.
    pub fn with_text_and_data(text: String, data: Json) -> (r: Self)
        ensures
            r.content@ == seq![McpContent::Text { text }],
            r.data == Some(data),
            !r.is_error,
    {
        let mut content: Vec<McpContent> = Vec::new();
        content.push(McpContent::text(text));
        McpResponse { content, data: Some(data), is_error: false }
    }

    /// An error response with one text.
    pub fn error(message: String) -> (r: Self)
        ensures
            r.content@ == seq![McpContent::Text { text: message }],
            r.data is None,
            r.is_error,
    {
        let mut content: Vec<McpContent> = Vec::new();
        content.push(McpContent::text(message));
        McpResponse { content, data: None, is_error: true }
    }

    /// The same response with this data.
    pub fn with_data(self, data: Json) -> (r: Self)
        ensures
            r.content == self.content,
            r.data == Some(data),
            r.is_error == self.is_error,
    {
        McpResponse { data: Some(data), ..self }
    }

    /// The same response with one more piece of content at the end.
    pub fn with_content(self, content: McpContent) -> (r: Self)
        ensures
            r.content@ == self.content@.push(content),
            r.data == self.data,
            r.is_error == self.is_error,
    {
        let mut s = self;
        s.content.push(content);
        s
    }

    /// The same response, marked as an error.
    pub fn as_error(self) -> (r: Self)
        ensures
            r.content == self.content,
            r.data == self.data,
            r.is_error,
    {
        McpResponse { is_error: true, ..self }
    }

    /// The JSON form of this response.
    pub fn to_json(&self) -> (r: Json)
        ensures
            r@ == response_json(*self),
    {
        let mut items: Vec<Json> = Vec::new();
        let mut i: usize = 0;
        while i < self.content.len()
            invariant
                i <= self.content@.len(),
                items@.len() == i,
                forall|k: int| 0 <= k < i ==> (#[trigger] items@[k])@ == content_json(self.content@[k]),
            decreases self.content.len() - i,
        {
            items.push(self.content[i].to_json());
            i = i + 1;
        }
        assert(items_view(items@) =~= Seq::new(self.content@.len(), |k: int| content_json(self.content@[k])));
        let mut es = no_members();
        push_member(&mut es, "content", array_of(items));
        match &self.data {
            Some(d) => push_member(&mut es, "data", d.deep_copy()),
            None => {},
        }
        push_member(&mut es, "is_error", Json::Bool(self.is_error));
        assert(members_view(es@) =~= response_members(*self));
        object_of(es)
    }
}

/// The summary text of a JSON result: its `message`, else its `status`, else the number
/// of its `results`, else a plain completion notice.
pub open spec fn summary_text(v: JsonV) -> Seq<char> {
    match v.get_str("message"@) {
        Some(m) => m,
        None => match v.get_str("status"@) {
            Some(s) => s,
            None => match v.get("results"@) {
                Some(JsonV::Array(items)) => "Operation completed with "@ + dec_text(items.len()) + " results"@,
                _ => "Operation completed"@,
            },
        },
    }
}

/// Conversion of a tool's return value into a response.
pub trait ToMcpResponse {
    fn to_mcp_response(self) -> McpResponse;
}

impl ToMcpResponse for String {
    /// A text response.
    fn to_mcp_response(self) -> (r: McpResponse)
        ensures
            r.content@ == seq![McpContent::Text { text: self }],
            r.data is None,
            !r.is_error,
    {
        McpResponse::text(self)
    }
}

impl<'a> ToMcpResponse for &'a str {
    /// A text response.
    fn to_mcp_response(self) -> (r: McpResponse)
        ensures
            r.content@.len() == 1,
            r.content@[0] matches McpContent::Text { text } && text@ == self@,
            r.data is None,
            !r.is_error,
    {
        McpResponse::text(copy_str(self))
    }
}

impl ToMcpResponse for Json {
    /// A response with the summary text of the value, and the value as its data.
    fn to_mcp_response(self) -> (r: McpResponse)
        ensures
            r.content@.len() == 1,
            r.content@[0] matches McpContent::Text { text } && text@ == summary_text(self@),
            r.data == Some(self),
            !r.is_error,
    {
        let text = match self.get_str("message") {
            Some(m) => copy_str(m.as_str()),
            None => match self.get_str("status") {
                Some(s) => copy_str(s.as_str()),
                None => match self.get("results") {
                    Some(Json::Array(items)) => {
                        let mut t = copy_str("Operation completed with ");
                        push_decimal(&mut t, items.len() as u128);
                        append_str(&mut t, " results");
                        t
                    },
                    _ => copy_str("Operation completed"),
                },
            },
        };
        McpResponse::with_text_and_data(text, self)
    }
}

impl ToMcpResponse for McpResponse {
    /// The response itself.
    fn to_mcp_response(self) -> (r: McpResponse)
        ensures
            r == self,
    {
        self
    }
}

} // verus!

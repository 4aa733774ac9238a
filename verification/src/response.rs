//! Tool responses: content with an error flag, and typed results.

use vstd::prelude::*;
use crate::error::McpResult;
use crate::json::{Json, JsonV, array_of, items_view, obj2, obj3};

verus! {

broadcast use vstd::string::group_string_axioms;

/// One piece of tool content.
#[derive(Debug)]
#[allow(inconsistent_fields)]
pub enum ToolContent {
    Text { text: String },
    Image { data: String, mime_type: String },
    Resource { uri: String },
}

/// The JSON form of tool content, tagged by `type`.
pub open spec fn tool_content_json(c: ToolContent) -> JsonV {
    match c {
        ToolContent::Text { text } => JsonV::Object(seq![("type"@, JsonV::Str("text"@)), ("text"@, JsonV::Str(text@))]),
        ToolContent::Image { data, mime_type } => JsonV::Object(
            seq![
                ("type"@, JsonV::Str("image"@)),
                ("data"@, JsonV::Str(data@)),
                ("mime_type"@, JsonV::Str(mime_type@)),
            ],
        ),
        ToolContent::Resource { uri } => JsonV::Object(seq![("type"@, JsonV::Str("resource"@)), ("uri"@, JsonV::Str(uri@))]),
    }
}

impl ToolContent {
    /// The JSON form of this content.
    pub fn to_json(&self) -> (r: Json)
        ensures
            r@ == tool_content_json(*self),
    {
        match self {
            ToolContent::Text { text } => obj2("type", Json::string("text"), "text", Json::string(text.as_str())),
            ToolContent::Image { data, mime_type } => obj3(
                "type",
                Json::string("image"),
                "data",
                Json::string(data.as_str()),
                "mime_type",
                Json::string(mime_type.as_str()),
            ),
            ToolContent::Resource { uri } => obj2("type", Json::string("resource"), "uri", Json::string(uri.as_str())),
        }
    }
}

/// What a tool returns: its content, and whether it reports an error.
#[derive(Debug)]
pub struct ToolResponse {
    pub content: Vec<ToolContent>,
    pub is_error: bool,
}

impl ToolResponse {
    /// A successful response with one text.
    pub fn success(text: String) -> (r: Self)
        ensures
            r.content@ == seq![ToolContent::Text { text }],
            !r.is_error,
    {
        let mut content: Vec<ToolContent> = Vec::new();
        content.push(ToolContent::Text { text });
        ToolResponse { content, is_error: false }
    }

    /// A successful response with this content.
    pub fn with_content(content: Vec<ToolContent>) -> (r: Self)
        ensures
            r.content == content,
            !r.is_error,
    {
        ToolResponse { content, is_error: false }
    }

    /// An error response with one text.
    pub fn error(message: String) -> (r: Self)
        ensures
            r.content@ == seq![ToolContent::Text { text: message }],
            r.is_error,
    {
        let mut content: Vec<ToolContent> = Vec::new();
        content.push(ToolContent::Text { text: message });
        ToolResponse { content, is_error: true }
    }

    /// The JSON array of the content; building it cannot fail.
    pub fn to_value(&self) -> (r: McpResult<Json>)
        ensures
            r matches Ok(j) && j@ == JsonV::Array(
                Seq::new(self.content@.len(), |i: int| tool_content_json(self.content@[i])),
            ),
    {
        let mut items: Vec<Json> = Vec::new();
        let mut i: usize = 0;
        while i < self.content.len()
            invariant
                i <= self.content@.len(),
                items@.len() == i,
                forall|k: int| 0 <= k < i ==> (#[trigger] items@[k])@ == tool_content_json(self.content@[k]),
            decreases self.content.len() - i,
        {
            items.push(self.content[i].to_json());
            i = i + 1;
        }
        assert(items_view(items@) =~= Seq::new(self.content@.len(), |k: int| tool_content_json(self.content@[k])));
        Ok(array_of(items))
    }
}

/// A tool result of a user-defined type.
#[derive(Debug)]
pub struct TypedResponse<T> {
    pub data: T,
}

impl<T> TypedResponse<T> {
    /// A typed result holding `data`.
    pub fn new(data: T) -> (r: Self)
        ensures
            r.data == data,
    {
        TypedResponse { data }
    }
}

} // verus!

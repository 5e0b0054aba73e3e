//! What the video platform says about a video: the request that asks for it,
//! and the reading of the answer.
//!
//! The answer is a JSON document. `serde_json` reads it and looks values up
//! in it; the functions at the bottom of this file are the only places where
//! it is called, and their contracts are believed, not proved. Which values
//! are looked up, and what their absence means, is decided here.

use crate::clock::{parse_rfc3339, rfc3339_millis};
use serde_json::Value;
use vstd::prelude::*;
use vstd::string::*;

verus! {

/// The address that answers questions about videos.
pub const VIDEOS_ENDPOINT: &'static str = "https://youtube.googleapis.com/youtube/v3/videos";

/// The parts of a video's description that are asked for.
pub const VIDEO_PARTS: &'static str = "snippet,contentDetails,statistics,liveStreamingDetails";

/// Where the answer holds the list of items.
pub const ITEMS: &'static str = "/items";

/// Where the answer holds the first item.
pub const FIRST_ITEM: &'static str = "/items/0";

/// Where the first item holds its snippet.
pub const SNIPPET: &'static str = "/items/0/snippet";

/// Where the snippet holds the title of the video.
pub const TITLE: &'static str = "/items/0/snippet/title";

/// Where the snippet holds the description of the video.
pub const DESCRIPTION: &'static str = "/items/0/snippet/description";

/// Where the snippet holds the identifier of the channel.
pub const CHANNEL_ID: &'static str = "/items/0/snippet/channelId";

/// Where the snippet holds the title of the channel.
pub const CHANNEL_TITLE: &'static str = "/items/0/snippet/channelTitle";

/// Where the first item holds its live streaming details.
pub const DETAILS: &'static str = "/items/0/liveStreamingDetails";

/// Where the live streaming details hold the scheduled start.
pub const SCHEDULED_START: &'static str = "/items/0/liveStreamingDetails/scheduledStartTime";

/// The metadata of a video. `livestream_start_dt` is the instant at which the
/// stream is scheduled to start, in milliseconds since the epoch.
#[derive(Debug)]
pub struct VideoMetadata {
    pub title: String,
    pub description: String,
    pub channel_id: String,
    pub channel_title: String,
    pub livestream_start_dt: i64,
}

/// Why an answer of the platform gives no metadata.
#[derive(Clone, Copy, Debug, PartialEq, Eq, Structural)]
pub enum MetadataError {
    /// The answer is not a JSON document.
    InvalidJson,
    /// It has no list of items, or the list is empty.
    NoItems,
    /// The first item has no snippet.
    NoSnippet,
    /// The snippet has no title.
    NoTitle,
    /// The snippet has no description.
    NoDescription,
    /// The snippet has no channel identifier.
    NoChannelId,
    /// The snippet has no channel title.
    NoChannelTitle,
    /// The first item has no live streaming details.
    NoLiveStreamingDetails,
    /// The live streaming details have no scheduled start.
    NoScheduledStartTime,
    /// The scheduled start is not an RFC 3339 date and time.
    InvalidStartTime,
}

/// A value of a JSON document, as far as this crate looks at it: its kind,
/// and its text where it is a string.
#[derive(Debug)]
pub enum Node {
    Null,
    Bool,
    Number,
    Text(String),
    Array,
    Object,
}

/// The mathematical content of a `Node`.
pub enum NodeKind {
    Null,
    Bool,
    Number,
    Text(Seq<char>),
    Array,
    Object,
}

impl View for Node {
    type V = NodeKind;

    open spec fn view(&self) -> NodeKind {
        match self {
            Node::Null => NodeKind::Null,
            Node::Bool => NodeKind::Bool,
            Node::Number => NodeKind::Number,
            Node::Text(text) => NodeKind::Text(text@),
            Node::Array => NodeKind::Array,
            Node::Object => NodeKind::Object,
        }
    }
}

/// The values of a JSON document by their JSON Pointer (RFC 6901): the
/// document itself under the empty pointer, the member `a` of an object
/// under the object's pointer followed by `/a`, the element `0` of an array
/// under the array's pointer followed by `/0`.
pub type Nodes = Map<Seq<char>, NodeKind>;

/// The values of the JSON document that `text` writes, or `None` where it
/// writes none.
pub uninterp spec fn json_parsed(text: Seq<char>) -> Option<Nodes>;

/// The values of a document that was read.
pub uninterp spec fn json_nodes(document: Value) -> Nodes;

/// The value under `pointer`, if there is one.
pub open spec fn node(nodes: Nodes, pointer: Seq<char>) -> Option<NodeKind> {
    if nodes.contains_key(pointer) {
        Some(nodes[pointer])
    } else {
        None
    }
}

/// The text under `pointer`, if there is a string.
pub open spec fn text_at(nodes: Nodes, pointer: Seq<char>) -> Option<Seq<char>> {
    match node(nodes, pointer) {
        Some(NodeKind::Text(text)) => Some(text),
        _ => None,
    }
}

/// The values that the metadata of a video is read from.
pub struct Fields {
    /// Whether the answer has a list of items.
    pub has_items: bool,
    /// Whether the list has a first item.
    pub has_first: bool,
    /// Whether the first item has a snippet, an object.
    pub has_snippet: bool,
    pub title: Option<String>,
    pub description: Option<String>,
    pub channel_id: Option<String>,
    pub channel_title: Option<String>,
    /// Whether the first item has live streaming details, an object.
    pub has_details: bool,
    /// The scheduled start as the answer writes it.
    pub start: Option<String>,
    /// The instant that the scheduled start denotes, in milliseconds since
    /// the epoch, where it denotes one.
    pub start_instant: Option<i64>,
}

/// The first thing that is missing in `fields`, in the order in which the
/// answer is read; `None` where nothing is.
pub open spec fn missing(fields: Fields) -> Option<MetadataError> {
    if !fields.has_items || !fields.has_first {
        Some(MetadataError::NoItems)
    } else if !fields.has_snippet {
        Some(MetadataError::NoSnippet)
    } else if fields.title is None {
        Some(MetadataError::NoTitle)
    } else if fields.description is None {
        Some(MetadataError::NoDescription)
    } else if fields.channel_id is None {
        Some(MetadataError::NoChannelId)
    } else if fields.channel_title is None {
        Some(MetadataError::NoChannelTitle)
    } else if !fields.has_details {
        Some(MetadataError::NoLiveStreamingDetails)
    } else if fields.start is None {
        Some(MetadataError::NoScheduledStartTime)
    } else if fields.start_instant is None {
        Some(MetadataError::InvalidStartTime)
    } else {
        None
    }
}

/// Whether `r` is what `fields` come to: the metadata they hold, or the
/// first thing that is missing.
pub open spec fn selected(fields: Fields, r: Result<VideoMetadata, MetadataError>) -> bool {
    match missing(fields) {
        Some(e) => r == Err::<VideoMetadata, MetadataError>(e),
        None => r matches Ok(m) && m.title == fields.title->0 && m.description
            == fields.description->0 && m.channel_id == fields.channel_id->0 && m.channel_title
            == fields.channel_title->0 && m.livestream_start_dt == fields.start_instant->0,
    }
}

/// The metadata that `fields` hold, or the first thing that is missing.
pub fn select(fields: Fields) -> (r: Result<VideoMetadata, MetadataError>)
    ensures
        selected(fields, r),
{
    if !fields.has_items || !fields.has_first {
        return Err(MetadataError::NoItems);
    }
    if !fields.has_snippet {
        return Err(MetadataError::NoSnippet);
    }
    let title = match fields.title {
        Some(title) => title,
        None => {
            return Err(MetadataError::NoTitle);
        },
    };
    let description = match fields.description {
        Some(description) => description,
        None => {
            return Err(MetadataError::NoDescription);
        },
    };
    let channel_id = match fields.channel_id {
        Some(channel_id) => channel_id,
        None => {
            return Err(MetadataError::NoChannelId);
        },
    };
    let channel_title = match fields.channel_title {
        Some(channel_title) => channel_title,
        None => {
            return Err(MetadataError::NoChannelTitle);
        },
    };
    if !fields.has_details {
        return Err(MetadataError::NoLiveStreamingDetails);
    }
    if fields.start.is_none() {
        return Err(MetadataError::NoScheduledStartTime);
    }
    let livestream_start_dt = match fields.start_instant {
        Some(instant) => instant,
        None => {
            return Err(MetadataError::InvalidStartTime);
        },
    };
    Ok(VideoMetadata { title, description, channel_id, channel_title, livestream_start_dt })
}

/// Whether `fields` are what the document `nodes` holds for a video: the
/// first item of `items`, its snippet and its live streaming details.
pub open spec fn fields_of(nodes: Nodes, fields: Fields) -> bool {
    &&& fields.has_items == (node(nodes, ITEMS@) == Some(NodeKind::Array))
    &&& fields.has_first == (node(nodes, FIRST_ITEM@) is Some)
    &&& fields.has_snippet == (node(nodes, SNIPPET@) == Some(NodeKind::Object))
    &&& same_text(fields.title, text_at(nodes, TITLE@))
    &&& same_text(fields.description, text_at(nodes, DESCRIPTION@))
    &&& same_text(fields.channel_id, text_at(nodes, CHANNEL_ID@))
    &&& same_text(fields.channel_title, text_at(nodes, CHANNEL_TITLE@))
    &&& fields.has_details == (node(nodes, DETAILS@) == Some(NodeKind::Object))
    &&& same_text(fields.start, text_at(nodes, SCHEDULED_START@))
    &&& fields.start_instant == start_instant(nodes)
}

/// Whether `held` is `text`, or both are absent.
pub open spec fn same_text(held: Option<String>, text: Option<Seq<char>>) -> bool {
    match held {
        Some(s) => text == Some(s@),
        None => text is None,
    }
}

/// The instant that the scheduled start of the document denotes, in
/// milliseconds since the epoch, where the document has one that denotes an
/// instant.
pub open spec fn start_instant(nodes: Nodes) -> Option<i64> {
    match text_at(nodes, SCHEDULED_START@) {
        Some(written) => rfc3339_millis(written),
        None => None,
    }
}

/// The first thing that is missing in the document, in the order in which it
/// is read; `None` where nothing is.
pub open spec fn missing_in(nodes: Nodes) -> Option<MetadataError> {
    if node(nodes, ITEMS@) != Some(NodeKind::Array) || node(nodes, FIRST_ITEM@) is None {
        Some(MetadataError::NoItems)
    } else if node(nodes, SNIPPET@) != Some(NodeKind::Object) {
        Some(MetadataError::NoSnippet)
    } else if text_at(nodes, TITLE@) is None {
        Some(MetadataError::NoTitle)
    } else if text_at(nodes, DESCRIPTION@) is None {
        Some(MetadataError::NoDescription)
    } else if text_at(nodes, CHANNEL_ID@) is None {
        Some(MetadataError::NoChannelId)
    } else if text_at(nodes, CHANNEL_TITLE@) is None {
        Some(MetadataError::NoChannelTitle)
    } else if node(nodes, DETAILS@) != Some(NodeKind::Object) {
        Some(MetadataError::NoLiveStreamingDetails)
    } else if text_at(nodes, SCHEDULED_START@) is None {
        Some(MetadataError::NoScheduledStartTime)
    } else if start_instant(nodes) is None {
        Some(MetadataError::InvalidStartTime)
    } else {
        None
    }
}

/// Whether `m` is the metadata that the document holds: the four texts of
/// the snippet, and the instant of the scheduled start.
pub open spec fn metadata_in(nodes: Nodes, m: VideoMetadata) -> bool {
    &&& Some(m.title@) == text_at(nodes, TITLE@)
    &&& Some(m.description@) == text_at(nodes, DESCRIPTION@)
    &&& Some(m.channel_id@) == text_at(nodes, CHANNEL_ID@)
    &&& Some(m.channel_title@) == text_at(nodes, CHANNEL_TITLE@)
    &&& Some(m.livestream_start_dt) == start_instant(nodes)
}

/// Whether `r` is what the answer `body` comes to: the metadata of the first
/// item, or the first thing that is missing.
pub open spec fn read_from(body: Seq<char>, r: Result<VideoMetadata, MetadataError>) -> bool {
    match json_parsed(body) {
        None => r == Err::<VideoMetadata, MetadataError>(MetadataError::InvalidJson),
        Some(nodes) => match missing_in(nodes) {
            Some(e) => r == Err::<VideoMetadata, MetadataError>(e),
            None => r matches Ok(m) && metadata_in(nodes, m),
        },
    }
}

/// The client of the video platform, as far as it decides: what is asked,
/// and how the answer is read.
pub struct YoutubeClient {
    api_key: String,
}

impl YoutubeClient {
    /// The key with which the platform is asked.
    pub closed spec fn api_key(&self) -> Seq<char> {
        self.api_key@
    }

    /// A client that asks with `api_key`.
    pub fn new(api_key: &str) -> (r: Self)
        ensures
            r.api_key() == api_key@,
    {
        YoutubeClient { api_key: api_key.to_owned() }
    }

    /// The query with which `VIDEOS_ENDPOINT` is asked about the video
    /// `video_id`: the parts, the identifier and the key.
    pub fn query(&self, video_id: &str) -> (r: Vec<(String, String)>)
        ensures
            r@.len() == 3,
            r@[0].0@ == "part"@ && r@[0].1@ == VIDEO_PARTS@,
            r@[1].0@ == "id"@ && r@[1].1@ == video_id@,
            r@[2].0@ == "key"@ && r@[2].1@ == self.api_key(),
    {
        let mut query: Vec<(String, String)> = Vec::new();
        query.push((String::from_str("part"), String::from_str(VIDEO_PARTS)));
        query.push((String::from_str("id"), video_id.to_owned()));
        query.push((String::from_str("key"), self.api_key.clone()));
        query
    }

    /// Reads the metadata of a video from the body of the platform's answer.
    pub fn get_video_metadata(body: &str) -> (r: Result<VideoMetadata, MetadataError>)
        ensures
            read_from(body@, r),
    {
        let document = match parse_json(body) {
            Some(document) => document,
            None => {
                return Err(MetadataError::InvalidJson);
            },
        };
        let fields = read_fields(&document);
        select(fields)
    }
}

/// Looks up in `document` what the metadata of a video is read from.
fn read_fields(document: &Value) -> (r: Fields)
    ensures
        fields_of(json_nodes(*document), r),
{
    let has_items = matches!(node_at(document, ITEMS), Some(Node::Array));
    let has_first = node_at(document, FIRST_ITEM).is_some();
    let has_snippet = matches!(node_at(document, SNIPPET), Some(Node::Object));
    let title = text(node_at(document, TITLE));
    let description = text(node_at(document, DESCRIPTION));
    let channel_id = text(node_at(document, CHANNEL_ID));
    let channel_title = text(node_at(document, CHANNEL_TITLE));
    let has_details = matches!(node_at(document, DETAILS), Some(Node::Object));
    let start = text(node_at(document, SCHEDULED_START));
    let start_instant = match &start {
        Some(written) => parse_rfc3339(written.as_str()),
        None => None,
    };
    Fields {
        has_items,
        has_first,
        has_snippet,
        title,
        description,
        channel_id,
        channel_title,
        has_details,
        start,
        start_instant,
    }
}

/// The text of a value that is a string.
fn text(found: Option<Node>) -> (r: Option<String>)
    ensures
        match r {
            Some(s) => found matches Some(Node::Text(t)) && s == t,
            None => !(found matches Some(Node::Text(_))),
        },
{
    match found {
        Some(Node::Text(text)) => Some(text),
        _ => None,
    }
}

/// `serde_json::Value`: a JSON document that was read. This crate sees of it
/// what `json_nodes` names.
#[verifier::external_type_specification]
#[verifier::external_body]
pub struct ExValue(serde_json::Value);

/// `serde_json::from_str` at the type `Value`. Believed of serde_json:
/// whether a text is a JSON document, and which values the document holds,
/// depends on the text alone.
#[verifier::external_body]
fn parse_json(text: &str) -> (r: Option<Value>)
    ensures
        match r {
            Some(document) => json_parsed(text@) == Some(json_nodes(document)),
            None => json_parsed(text@) is None,
        },
{
    serde_json::from_str::<Value>(text).ok()
}

/// `serde_json::Value::pointer`. Believed of serde_json: the value that a
/// JSON Pointer addresses in a document is the one that `json_nodes` holds
/// under it, and none is addressed where none is held.
#[verifier::external_body]
fn node_at(document: &Value, pointer: &str) -> (r: Option<Node>)
    ensures
        match r {
            Some(found) => node(json_nodes(*document), pointer@) == Some(found@),
            None => node(json_nodes(*document), pointer@) is None,
        },
{
    Some(
        match document.pointer(pointer)? {
            Value::Null => Node::Null,
            Value::Bool(_) => Node::Bool,
            Value::Number(_) => Node::Number,
            Value::String(text) => Node::Text(text.clone()),
            Value::Array(_) => Node::Array,
            Value::Object(_) => Node::Object,
        },
    )
}

} // verus!

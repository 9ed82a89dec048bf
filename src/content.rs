use vstd::prelude::*;
use vstd::string::StringExecFns;

verus! {

/// The kinds of content block an agent can stream, with what is shown of each.
#[derive(Debug, Clone, PartialEq, Eq)]
pub enum ContentKind {
    Text(String),
    Image,
    Audio,
    ResourceLink,
    Resource,
    Unknown,
}

/// The kinds of session update; only the two agent chunk kinds are read.
#[derive(Debug, Clone, PartialEq, Eq)]
pub enum UpdateKind {
    AgentMessageChunk(ContentKind),
    AgentThoughtChunk(ContentKind),
    UserMessageChunk,
    ToolCall,
    ToolCallUpdate,
    Plan,
    AvailableCommandsUpdate,
    CurrentModeUpdate,
    Other,
}

/// The displayable text of a content block: text passes through, every other
/// kind shows as a fixed placeholder.
pub open spec fn content_text(c: ContentKind) -> Seq<char> {
    match c {
        ContentKind::Text(t) => t@,
        ContentKind::Image => "<image>"@,
        ContentKind::Audio => "<audio>"@,
        ContentKind::ResourceLink => "<resource_link>"@,
        ContentKind::Resource => "<resource>"@,
        ContentKind::Unknown => "<unknown>"@,
    }
}

/// Computes `content_text(c)`.
pub fn display_text(c: ContentKind) -> (r: String)
    ensures
        r@ == content_text(c),
{
    match c {
        ContentKind::Text(t) => t,
        ContentKind::Image => String::from_str("<image>"),
        ContentKind::Audio => String::from_str("<audio>"),
        ContentKind::ResourceLink => String::from_str("<resource_link>"),
        ContentKind::Resource => String::from_str("<resource>"),
        ContentKind::Unknown => String::from_str("<unknown>"),
    }
}

} // verus!

//! Translation between wire messages and conversation messages.
//!
//! Towards the provider a wire message becomes a conversation message of
//! the same role with one content block. From the provider only the first
//! content block of the reply is taken; a reply without one, or with one
//! that is neither text nor image, gives empty text.

use vstd::prelude::*;
use crate::conversation::{Message, MessageContent, MessageContentView, MessageView};
use crate::model::{Content, ContentView, Role, SamplingMessage, SamplingMessageView};

verus! {

/// The content block that stands for a wire content: text stays text, an
/// image stays an image, anything else is handed on as it is.
pub open spec fn spec_content_to_internal(content: ContentView) -> MessageContentView {
    match content {
        ContentView::Text(text) => MessageContentView::Text(text),
        ContentView::Image { data, mime_type } => MessageContentView::Image { data, mime_type },
        ContentView::Other(payload) => MessageContentView::Other(payload),
    }
}

/// The conversation message that stands for a wire message.
pub open spec fn spec_to_internal(message: SamplingMessageView) -> MessageView {
    MessageView { role: message.role, content: seq![spec_content_to_internal(message.content)] }
}

/// The conversation that stands for a sequence of wire messages: one
/// message for each, in the same order.
pub open spec fn spec_to_internal_all(messages: Seq<SamplingMessageView>) -> Seq<MessageView> {
    Seq::new(messages.len(), |i: int| spec_to_internal(messages[i]))
}

/// The wire content of a provider's reply.
pub open spec fn spec_content_from_internal(reply: MessageView) -> ContentView {
    if reply.content.len() == 0 {
        ContentView::Text(Seq::empty())
    } else {
        match reply.content[0] {
            MessageContentView::Text(text) => ContentView::Text(text),
            MessageContentView::Image { data, mime_type } => ContentView::Image { data, mime_type },
            MessageContentView::Other(_) => ContentView::Text(Seq::empty()),
        }
    }
}

/// The wire message of a provider's reply. Its role is the assistant's,
/// whatever role the reply itself names.
pub open spec fn spec_from_internal(reply: MessageView) -> SamplingMessageView {
    SamplingMessageView { role: Role::Assistant, content: spec_content_from_internal(reply) }
}

/// Translates the content of one wire message.
pub fn content_to_internal(content: &Content) -> (result: MessageContent)
    ensures
        result@ == spec_content_to_internal(content@),
{
    match content {
        Content::Text(text) => MessageContent::Text(text.clone()),
        Content::Image { data, mime_type } => MessageContent::Image {
            data: data.clone(),
            mime_type: mime_type.clone(),
        },
        Content::Other(payload) => MessageContent::Other(payload.clone()),
    }
}

/// Translates one wire message.
pub fn to_internal(message: &SamplingMessage) -> (result: Message)
    ensures
        result@ == spec_to_internal(message@),
{
    let mut content: Vec<MessageContent> = Vec::new();
    content.push(content_to_internal(&message.content));
    let result = Message { role: message.role, content };
    assert(result.content.deep_view() =~= seq![spec_content_to_internal(message.content@)]);
    result
}

/// Translates a sequence of wire messages, keeping their order.
pub fn to_internal_all(messages: &Vec<SamplingMessage>) -> (result: Vec<Message>)
    ensures
        result.deep_view() == spec_to_internal_all(messages.deep_view()),
{
    let mut result: Vec<Message> = Vec::new();
    let mut i: usize = 0;
    while i < messages.len()
        invariant
            i <= messages.len(),
            result.len() == i,
            forall|k: int| 0 <= k < i ==> (#[trigger] result[k])@ == spec_to_internal(messages[k]@),
        decreases messages.len() - i,
    {
        result.push(to_internal(&messages[i]));
        i += 1;
    }
    assert(result.deep_view() =~= spec_to_internal_all(messages.deep_view()));
    result
}

/// Translates the content of a provider's reply.
pub fn content_from_internal(reply: &Message) -> (result: Content)
    ensures
        result@ == spec_content_from_internal(reply@),
{
    if reply.content.len() == 0 {
        Content::Text(String::new())
    } else {
        match &reply.content[0] {
            MessageContent::Text(text) => Content::Text(text.clone()),
            MessageContent::Image { data, mime_type } => Content::Image {
                data: data.clone(),
                mime_type: mime_type.clone(),
            },
            MessageContent::Other(_) => Content::Text(String::new()),
        }
    }
}

/// Translates a provider's reply.
pub fn from_internal(reply: &Message) -> (result: SamplingMessage)
    ensures
        result@ == spec_from_internal(reply@),
{
    SamplingMessage { role: Role::Assistant, content: content_from_internal(reply) }
}

/// A wire message that holds text or an image comes back with the same
/// content when it is translated to the conversation form and back.
pub proof fn lemma_round_trip_keeps_content(message: SamplingMessageView)
    requires
        !(message.content is Other),
    ensures
        spec_content_from_internal(spec_to_internal(message)) == message.content,
{
}

/// A wire message of any further kind comes back as empty text.
pub proof fn lemma_round_trip_empties_other(message: SamplingMessageView)
    requires
        message.content is Other,
    ensures
        spec_content_from_internal(spec_to_internal(message)) == ContentView::Text(Seq::empty()),
{
}

/// Translation towards the provider keeps the number of messages, and the
/// role of each.
pub proof fn lemma_to_internal_all_keeps_roles(messages: Seq<SamplingMessageView>)
    ensures
        spec_to_internal_all(messages).len() == messages.len(),
        forall|i: int|
            0 <= i < messages.len() ==> (#[trigger] spec_to_internal_all(messages)[i]).role
                == messages[i].role,
{
}

} // verus!

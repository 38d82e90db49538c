//! The conversation form of a message: what the model provider takes and
//! gives.

use vstd::prelude::*;
use crate::model::Role;

verus! {

/// One block of content in a conversation message.
#[derive(Clone, Debug, PartialEq, Eq)]
pub enum MessageContent {
    /// Plain text.
    Text(String),
    /// An image: its encoded bytes and their MIME type.
    Image { data: String, mime_type: String },
    /// A block of any further kind, kept in its serialised form.
    Other(String),
}

/// The mathematical value of a [`MessageContent`].
pub enum MessageContentView {
    Text(Seq<char>),
    Image { data: Seq<char>, mime_type: Seq<char> },
    Other(Seq<char>),
}

impl View for MessageContent {
    type V = MessageContentView;

    open spec fn view(&self) -> MessageContentView {
        match *self {
            MessageContent::Text(text) => MessageContentView::Text(text@),
            MessageContent::Image { data, mime_type } => MessageContentView::Image {
                data: data@,
                mime_type: mime_type@,
            },
            MessageContent::Other(payload) => MessageContentView::Other(payload@),
        }
    }
}

impl DeepView for MessageContent {
    type V = MessageContentView;

    open spec fn deep_view(&self) -> MessageContentView {
        self@
    }
}

/// A conversation message: a role and its content blocks, in order.
#[derive(Clone, Debug, PartialEq, Eq)]
pub struct Message {
    pub role: Role,
    pub content: Vec<MessageContent>,
}

/// The mathematical value of a [`Message`].
pub struct MessageView {
    pub role: Role,
    pub content: Seq<MessageContentView>,
}

impl View for Message {
    type V = MessageView;

    open spec fn view(&self) -> MessageView {
        MessageView { role: self.role, content: self.content.deep_view() }
    }
}

impl DeepView for Message {
    type V = MessageView;

    open spec fn deep_view(&self) -> MessageView {
        self@
    }
}

} // verus!

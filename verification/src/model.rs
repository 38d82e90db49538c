//! The wire types: what an extension sends, what an approver decides and what
//! is answered.

use vstd::prelude::*;

verus! {

/// Who speaks in a message.
#[derive(Clone, Copy, Debug, PartialEq, Eq, Structural)]
pub enum Role {
    User,
    Assistant,
}

/// What a wire message holds.
#[derive(Clone, Debug, PartialEq, Eq)]
pub enum Content {
    /// Plain text.
    Text(String),
    /// An image: its encoded bytes and their MIME type.
    Image { data: String, mime_type: String },
    /// Content of any further kind, kept in its serialised form and never
    /// interpreted.
    Other(String),
}

/// The mathematical value of a [`Content`].
pub enum ContentView {
    Text(Seq<char>),
    Image { data: Seq<char>, mime_type: Seq<char> },
    Other(Seq<char>),
}

impl View for Content {
    type V = ContentView;

    open spec fn view(&self) -> ContentView {
        match *self {
            Content::Text(text) => ContentView::Text(text@),
            Content::Image { data, mime_type } => ContentView::Image {
                data: data@,
                mime_type: mime_type@,
            },
            Content::Other(payload) => ContentView::Other(payload@),
        }
    }
}

impl DeepView for Content {
    type V = ContentView;

    open spec fn deep_view(&self) -> ContentView {
        self@
    }
}

/// One message of a sampling exchange.
#[derive(Clone, Debug, PartialEq, Eq)]
pub struct SamplingMessage {
    /// The role of the message's sender.
    pub role: Role,
    /// The content of the message.
    pub content: Content,
}

/// The mathematical value of a [`SamplingMessage`].
pub struct SamplingMessageView {
    pub role: Role,
    pub content: ContentView,
}

impl View for SamplingMessage {
    type V = SamplingMessageView;

    open spec fn view(&self) -> SamplingMessageView {
        SamplingMessageView { role: self.role, content: self.content@ }
    }
}

impl DeepView for SamplingMessage {
    type V = SamplingMessageView;

    open spec fn deep_view(&self) -> SamplingMessageView {
        self@
    }
}

/// An extension's request for a completion.
#[derive(Clone, Debug, PartialEq)]
pub struct SamplingRequest {
    /// The agent session the request belongs to.
    pub session_id: String,
    /// The extension that asks.
    pub extension_name: String,
    /// The messages to send to the model, in order.
    pub messages: Vec<SamplingMessage>,
    /// Preferred models, if any.
    pub model_preferences: Option<Vec<String>>,
    /// The system prompt, if the extension sets one.
    pub system_prompt: Option<String>,
    /// Which context to include, if stated.
    pub include_context: Option<String>,
    /// The sampling temperature, held as the bit pattern of the 64-bit
    /// IEEE 754 number that the wire carries.
    pub temperature: Option<u64>,
    /// The largest number of tokens to generate.
    pub max_tokens: i32,
    /// Sequences at which generation stops.
    pub stop_sequences: Option<Vec<String>>,
    /// Further metadata, carried and never read.
    pub metadata: Option<serde_json::Value>,
}

/// The mathematical value of a [`SamplingRequest`].
pub struct SamplingRequestView {
    pub session_id: Seq<char>,
    pub extension_name: Seq<char>,
    pub messages: Seq<SamplingMessageView>,
    pub model_preferences: Option<Seq<Seq<char>>>,
    pub system_prompt: Option<Seq<char>>,
    pub include_context: Option<Seq<char>>,
    pub temperature: Option<u64>,
    pub max_tokens: i32,
    pub stop_sequences: Option<Seq<Seq<char>>>,
    pub metadata: Option<serde_json::Value>,
}

impl View for SamplingRequest {
    type V = SamplingRequestView;

    open spec fn view(&self) -> SamplingRequestView {
        SamplingRequestView {
            session_id: self.session_id@,
            extension_name: self.extension_name@,
            messages: self.messages.deep_view(),
            model_preferences: self.model_preferences.deep_view(),
            system_prompt: self.system_prompt.deep_view(),
            include_context: self.include_context.deep_view(),
            temperature: self.temperature,
            max_tokens: self.max_tokens,
            stop_sequences: self.stop_sequences.deep_view(),
            metadata: self.metadata,
        }
    }
}

/// The answer to a decided sampling request.
#[derive(Clone, Debug, PartialEq, Eq)]
pub struct SamplingResponse {
    /// The reply: the model's, or the denial's.
    pub message: SamplingMessage,
    /// The model that produced the reply.
    pub model: String,
    /// Why generation stopped.
    pub stop_reason: Option<String>,
}

/// The mathematical value of a [`SamplingResponse`].
pub struct SamplingResponseView {
    pub message: SamplingMessageView,
    pub model: Seq<char>,
    pub stop_reason: Option<Seq<char>>,
}

impl View for SamplingResponse {
    type V = SamplingResponseView;

    open spec fn view(&self) -> SamplingResponseView {
        SamplingResponseView {
            message: self.message@,
            model: self.model@,
            stop_reason: self.stop_reason.deep_view(),
        }
    }
}

/// An approver's decision on a sampling request.
#[derive(Clone, Debug, PartialEq)]
pub struct SamplingApprovalRequest {
    /// The agent session in which the decision is carried out.
    pub session_id: String,
    /// The request that the decision is about.
    pub original_request: SamplingRequest,
    /// The decision: `approve`, `edit` or `deny`.
    pub action: String,
    /// The messages that replace the original ones when the action is
    /// `edit`.
    pub edited_messages: Option<Vec<SamplingMessage>>,
}

/// The mathematical value of a [`SamplingApprovalRequest`].
pub struct SamplingApprovalRequestView {
    pub session_id: Seq<char>,
    pub original_request: SamplingRequestView,
    pub action: Seq<char>,
    pub edited_messages: Option<Seq<SamplingMessageView>>,
}

impl View for SamplingApprovalRequest {
    type V = SamplingApprovalRequestView;

    open spec fn view(&self) -> SamplingApprovalRequestView {
        SamplingApprovalRequestView {
            session_id: self.session_id@,
            original_request: self.original_request@,
            action: self.action@,
            edited_messages: self.edited_messages.deep_view(),
        }
    }
}

/// What the submission of a sampling request is answered with.
#[derive(Clone, Debug, PartialEq, Eq)]
pub struct PendingStatus {
    /// The state of the request.
    pub status: String,
    /// A sentence for the person who reads the answer.
    pub message: String,
}

} // verus!

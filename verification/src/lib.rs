//! A human-in-the-loop gate for model-sampling requests.
//!
//! An extension that runs inside an agent session cannot call a language
//! model by itself. It emits a sampling request, and a person approves it,
//! edits it or denies it. This library holds the rules of that workflow:
//! the immediate answer to a submitted request, the dispatch of that person's
//! decision, the translation of messages between the wire form and the
//! conversation form of the model provider, and the sequence of steps that
//! leads from an accepted decision to a response.
//!
//! The library performs no lookup and no completion itself. Each outside
//! operation is described by a [`resolution::Step`]; the caller carries it
//! out and hands back a [`resolution::Event`].

pub mod conversation;
pub mod error;
pub mod json;
pub mod model;
pub mod resolution;
pub mod translate;

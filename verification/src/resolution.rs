//! Intake of a sampling request, and the resolution of an approver's
//! decision.
//!
//! Resolution is a small state machine. [`handle_sampling_approval`] reads
//! the decision and gives the first [`Step`]. A step that is not
//! [`Step::Finished`] names one outside operation: the caller performs it
//! and reports its outcome as an [`Event`] to [`process_sampling`], which
//! gives the next step. Nothing is kept between two decisions.

use vstd::prelude::*;
use crate::conversation::{Message, MessageView};
use crate::error::SamplingError;
use crate::model::{
    Content, ContentView, PendingStatus, Role, SamplingApprovalRequest,
    SamplingApprovalRequestView, SamplingMessage, SamplingMessageView, SamplingRequest,
    SamplingRequestView, SamplingResponse, SamplingResponseView,
};
use crate::translate::{from_internal, spec_from_internal, spec_to_internal_all, to_internal_all};

verus! {

/// An approver's verdict.
#[derive(Clone, Copy, Debug, PartialEq, Eq, Structural)]
pub enum Action {
    Approve,
    Edit,
    Deny,
}

/// What the caller has to do next, with what the library needs to go on
/// afterwards.
#[derive(Debug, PartialEq)]
pub enum Step {
    /// Find the agent of the session `session_id`.
    ResolveAgent { session_id: String, request: SamplingRequest },
    /// Ask that agent for its model provider.
    ObtainProvider { request: SamplingRequest },
    /// Ask the provider to complete `messages` under `system_prompt`,
    /// offering it the tools named in `tools`. The library offers none.
    Complete { system_prompt: String, messages: Vec<Message>, tools: Vec<String> },
    /// Nothing is left to do: this is the answer.
    Finished(Result<SamplingResponse, SamplingError>),
}

/// The mathematical value of a [`Step`].
pub enum StepView {
    ResolveAgent { session_id: Seq<char>, request: SamplingRequestView },
    ObtainProvider { request: SamplingRequestView },
    Complete { system_prompt: Seq<char>, messages: Seq<MessageView>, tools: Seq<Seq<char>> },
    Finished(Result<SamplingResponseView, SamplingError>),
}

impl View for Step {
    type V = StepView;

    open spec fn view(&self) -> StepView {
        match *self {
            Step::ResolveAgent { session_id, request } => StepView::ResolveAgent {
                session_id: session_id@,
                request: request@,
            },
            Step::ObtainProvider { request } => StepView::ObtainProvider { request: request@ },
            Step::Complete { system_prompt, messages, tools } => StepView::Complete {
                system_prompt: system_prompt@,
                messages: messages.deep_view(),
                tools: tools.deep_view(),
            },
            Step::Finished(Ok(response)) => StepView::Finished(Ok(response@)),
            Step::Finished(Err(error)) => StepView::Finished(Err(error)),
        }
    }
}

/// The outcome of an outside operation.
#[derive(Clone, Debug, PartialEq, Eq)]
pub enum Event {
    /// The session has a live agent.
    AgentResolved,
    /// The session identifier names no session.
    SessionUnknown,
    /// The session is known and its agent cannot be had.
    AgentUnavailable,
    /// The agent has a provider.
    ProviderObtained,
    /// The agent has no provider.
    ProviderMissing,
    /// The provider replied with `message`, produced by `model`.
    Completed { message: Message, model: String },
    /// The provider failed.
    CompletionFailed,
}

/// The mathematical value of an [`Event`].
pub enum EventView {
    AgentResolved,
    SessionUnknown,
    AgentUnavailable,
    ProviderObtained,
    ProviderMissing,
    Completed { message: MessageView, model: Seq<char> },
    CompletionFailed,
}

impl View for Event {
    type V = EventView;

    open spec fn view(&self) -> EventView {
        match *self {
            Event::AgentResolved => EventView::AgentResolved,
            Event::SessionUnknown => EventView::SessionUnknown,
            Event::AgentUnavailable => EventView::AgentUnavailable,
            Event::ProviderObtained => EventView::ProviderObtained,
            Event::ProviderMissing => EventView::ProviderMissing,
            Event::Completed { message, model } => EventView::Completed {
                message: message@,
                model: model@,
            },
            Event::CompletionFailed => EventView::CompletionFailed,
        }
    }
}

/// The status that every submitted request is answered with.
pub open spec fn spec_pending_status() -> Seq<char> {
    "pending"@
}

/// The sentence that goes with the pending status.
pub open spec fn spec_pending_message() -> Seq<char> {
    "Sampling request received. Awaiting user approval."@
}

/// The text of a denial.
pub open spec fn spec_denial_text() -> Seq<char> {
    "Sampling request denied by user."@
}

/// The system prompt used where a request sets none.
pub open spec fn spec_default_system_prompt() -> Seq<char> {
    "You are a helpful assistant"@
}

/// The response to a denied request. It depends on nothing.
pub open spec fn spec_denial_response() -> SamplingResponseView {
    SamplingResponseView {
        message: SamplingMessageView {
            role: Role::Assistant,
            content: ContentView::Text(spec_denial_text()),
        },
        model: "none"@,
        stop_reason: Some("user_denied"@),
    }
}

/// The response that carries a provider's reply: the reply translated, the
/// model that the provider reports, and the stop reason `end_turn`.
pub open spec fn spec_completion_response(
    reply: MessageView,
    model: Seq<char>,
) -> SamplingResponseView {
    SamplingResponseView {
        message: spec_from_internal(reply),
        model: model,
        stop_reason: Some("end_turn"@),
    }
}

/// The verdict that an action tag names, if it names one.
pub open spec fn spec_parse_action(tag: Seq<char>) -> Option<Action> {
    if tag == "approve"@ {
        Some(Action::Approve)
    } else if tag == "edit"@ {
        Some(Action::Edit)
    } else if tag == "deny"@ {
        Some(Action::Deny)
    } else {
        None
    }
}

/// The system prompt that a request is completed under: its own, or the
/// default.
pub open spec fn spec_effective_system_prompt(request: SamplingRequestView) -> Seq<char> {
    match request.system_prompt {
        Some(prompt) => prompt,
        None => spec_default_system_prompt(),
    }
}

/// The request that an edit leads to: the original with its messages
/// replaced.
pub open spec fn spec_with_messages(
    request: SamplingRequestView,
    messages: Seq<SamplingMessageView>,
) -> SamplingRequestView {
    SamplingRequestView { messages: messages, ..request }
}

/// The first step of a decision.
///
/// An approval goes on with the original request and an edit with the
/// original request carrying the replacement messages, both in the session
/// that the decision names. A denial is answered at once. An edit whose
/// replacement is missing or empty, and an unknown action, are invalid
/// input.
pub open spec fn spec_dispatch(decision: SamplingApprovalRequestView) -> StepView {
    match spec_parse_action(decision.action) {
        Some(Action::Approve) => StepView::ResolveAgent {
            session_id: decision.session_id,
            request: decision.original_request,
        },
        Some(Action::Edit) => match decision.edited_messages {
            Some(messages) if messages.len() > 0 => StepView::ResolveAgent {
                session_id: decision.session_id,
                request: spec_with_messages(decision.original_request, messages),
            },
            _ => StepView::Finished(Err(SamplingError::InvalidInput)),
        },
        Some(Action::Deny) => StepView::Finished(Ok(spec_denial_response())),
        None => StepView::Finished(Err(SamplingError::InvalidInput)),
    }
}

/// The step that follows `step` once the caller reports `event`.
///
/// An event that does not answer the pending operation counts as that
/// operation's failure. A finished resolution stays as it is.
pub open spec fn spec_next(step: StepView, event: EventView) -> StepView {
    match step {
        StepView::ResolveAgent { session_id, request } => match event {
            EventView::AgentResolved => StepView::ObtainProvider { request },
            EventView::SessionUnknown => StepView::Finished(Err(SamplingError::SessionNotFound)),
            _ => StepView::Finished(Err(SamplingError::AgentUnavailable)),
        },
        StepView::ObtainProvider { request } => match event {
            EventView::ProviderObtained => StepView::Complete {
                system_prompt: spec_effective_system_prompt(request),
                messages: spec_to_internal_all(request.messages),
                tools: Seq::empty(),
            },
            _ => StepView::Finished(Err(SamplingError::ProviderUnavailable)),
        },
        StepView::Complete { system_prompt, messages, tools } => match event {
            EventView::Completed { message, model } => StepView::Finished(
                Ok(spec_completion_response(message, model)),
            ),
            _ => StepView::Finished(Err(SamplingError::CompletionFailed)),
        },
        StepView::Finished(outcome) => StepView::Finished(outcome),
    }
}

/// Reads an action tag.
pub fn parse_action(tag: &String) -> (result: Option<Action>)
    ensures
        result == spec_parse_action(tag@),
{
    if *tag == "approve".to_owned() {
        Some(Action::Approve)
    } else if *tag == "edit".to_owned() {
        Some(Action::Edit)
    } else if *tag == "deny".to_owned() {
        Some(Action::Deny)
    } else {
        None
    }
}

/// Builds the response to a denied request.
pub fn denial_response() -> (result: SamplingResponse)
    ensures
        result@ == spec_denial_response(),
{
    SamplingResponse {
        message: SamplingMessage {
            role: Role::Assistant,
            content: Content::Text("Sampling request denied by user.".to_owned()),
        },
        model: "none".to_owned(),
        stop_reason: Some("user_denied".to_owned()),
    }
}

/// Builds the response that carries a provider's reply.
pub fn completion_response(reply: &Message, model: String) -> (result: SamplingResponse)
    ensures
        result@ == spec_completion_response(reply@, model@),
{
    SamplingResponse {
        message: from_internal(reply),
        model,
        stop_reason: Some("end_turn".to_owned()),
    }
}

/// Takes in a sampling request. The request is answered as pending,
/// whatever it holds; it is neither changed nor acted on.
pub fn handle_sampling_request(request: &SamplingRequest) -> (result: PendingStatus)
    ensures
        result.status@ == spec_pending_status(),
        result.message@ == spec_pending_message(),
{
    PendingStatus {
        status: "pending".to_owned(),
        message: "Sampling request received. Awaiting user approval.".to_owned(),
    }
}

/// Reads an approver's decision and gives the first step of its resolution.
pub fn handle_sampling_approval(decision: SamplingApprovalRequest) -> (result: Step)
    ensures
        result@ == spec_dispatch(decision@),
{
    match parse_action(&decision.action) {
        Some(Action::Approve) => Step::ResolveAgent {
            session_id: decision.session_id,
            request: decision.original_request,
        },
        Some(Action::Edit) => match decision.edited_messages {
            Some(messages) => {
                if messages.len() > 0 {
                    let mut request = decision.original_request;
                    request.messages = messages;
                    Step::ResolveAgent { session_id: decision.session_id, request }
                } else {
                    Step::Finished(Err(SamplingError::InvalidInput))
                }
            },
            None => Step::Finished(Err(SamplingError::InvalidInput)),
        },
        Some(Action::Deny) => Step::Finished(Ok(denial_response())),
        None => Step::Finished(Err(SamplingError::InvalidInput)),
    }
}

/// Carries a resolution one step on: from the pending step and the outcome
/// of its operation to the next step.
pub fn process_sampling(step: Step, event: Event) -> (result: Step)
    ensures
        result@ == spec_next(step@, event@),
{
    match step {
        Step::ResolveAgent { session_id, request } => match event {
            Event::AgentResolved => Step::ObtainProvider { request },
            Event::SessionUnknown => Step::Finished(Err(SamplingError::SessionNotFound)),
            _ => Step::Finished(Err(SamplingError::AgentUnavailable)),
        },
        Step::ObtainProvider { request } => match event {
            Event::ProviderObtained => {
                let messages = to_internal_all(&request.messages);
                let system_prompt = match request.system_prompt {
                    Some(prompt) => prompt,
                    None => "You are a helpful assistant".to_owned(),
                };
                let tools: Vec<String> = Vec::new();
                assert(tools.deep_view() =~= Seq::<Seq<char>>::empty());
                Step::Complete { system_prompt, messages, tools }
            },
            _ => Step::Finished(Err(SamplingError::ProviderUnavailable)),
        },
        Step::Complete { system_prompt, messages, tools } => match event {
            Event::Completed { message, model } => Step::Finished(
                Ok(completion_response(&message, model)),
            ),
            _ => Step::Finished(Err(SamplingError::CompletionFailed)),
        },
        Step::Finished(outcome) => Step::Finished(outcome),
    }
}

/// The step at which the provider is called, if the agent and its provider
/// are found: what follows the decision's first step after both lookups
/// succeed.
pub open spec fn spec_provider_call(decision: SamplingApprovalRequestView) -> StepView {
    spec_next(
        spec_next(spec_dispatch(decision), EventView::AgentResolved),
        EventView::ProviderObtained,
    )
}

/// The three action tags name three different verdicts, and no other tag
/// names one.
pub proof fn lemma_action_tags()
    ensures
        spec_parse_action("approve"@) == Some(Action::Approve),
        spec_parse_action("edit"@) == Some(Action::Edit),
        spec_parse_action("deny"@) == Some(Action::Deny),
        forall|tag: Seq<char>|
            tag != "approve"@ && tag != "edit"@ && tag != "deny"@ ==> (
            #[trigger] spec_parse_action(tag)) is None,
{
    reveal_strlit("approve");
    reveal_strlit("edit");
    reveal_strlit("deny");
    assert("edit"@[0] != "deny"@[0]);
}

/// A denial is answered at once and always alike: the model is `none` and
/// the stop reason `user_denied`, whatever the original request and the
/// replacement messages hold.
pub proof fn lemma_deny_is_constant(decision: SamplingApprovalRequestView)
    requires
        decision.action == "deny"@,
    ensures
        spec_dispatch(decision) == StepView::Finished(Ok(spec_denial_response())),
        spec_denial_response().model == "none"@,
        spec_denial_response().stop_reason == Some("user_denied"@),
        spec_denial_response().message.role == Role::Assistant,
{
    lemma_action_tags();
}

/// An edit without replacement messages, or with an empty sequence of
/// them, is invalid input.
pub proof fn lemma_edit_without_replacement_is_invalid(decision: SamplingApprovalRequestView)
    requires
        decision.action == "edit"@,
        decision.edited_messages is None || decision.edited_messages == Some(
            Seq::<SamplingMessageView>::empty(),
        ),
    ensures
        spec_dispatch(decision) == StepView::Finished(Err(SamplingError::InvalidInput)),
        SamplingError::InvalidInput.spec_status_code() == 400,
{
    lemma_action_tags();
}

/// An action tag that names no verdict is invalid input.
pub proof fn lemma_unknown_action_is_invalid(decision: SamplingApprovalRequestView)
    requires
        spec_parse_action(decision.action) is None,
    ensures
        spec_dispatch(decision) == StepView::Finished(Err(SamplingError::InvalidInput)),
        SamplingError::InvalidInput.spec_status_code() == 400,
{
}

/// After an edit with replacement messages the provider is handed those
/// messages, translated one for one, and nothing of the original messages.
/// The system prompt is still that of the original request, and no tool is
/// offered.
pub proof fn lemma_edit_forwards_replacement(
    decision: SamplingApprovalRequestView,
    replacement: Seq<SamplingMessageView>,
)
    requires
        decision.action == "edit"@,
        decision.edited_messages == Some(replacement),
        replacement.len() > 0,
    ensures
        spec_dispatch(decision) == (StepView::ResolveAgent {
            session_id: decision.session_id,
            request: spec_with_messages(decision.original_request, replacement),
        }),
        spec_provider_call(decision) == (StepView::Complete {
            system_prompt: spec_effective_system_prompt(decision.original_request),
            messages: spec_to_internal_all(replacement),
            tools: Seq::empty(),
        }),
{
    lemma_action_tags();
}

/// After an approval the request goes on unchanged, and the provider is
/// handed the original messages, translated one for one, with no tool.
pub proof fn lemma_approve_forwards_original(decision: SamplingApprovalRequestView)
    requires
        decision.action == "approve"@,
    ensures
        spec_dispatch(decision) == (StepView::ResolveAgent {
            session_id: decision.session_id,
            request: decision.original_request,
        }),
        spec_provider_call(decision) == (StepView::Complete {
            system_prompt: spec_effective_system_prompt(decision.original_request),
            messages: spec_to_internal_all(decision.original_request.messages),
            tools: Seq::empty(),
        }),
{
    lemma_action_tags();
}

/// The provider is called at one place only: after its lookup succeeded.
/// No decision starts with a call of the provider, and a finished
/// resolution stays finished, so that a denial and an invalid decision
/// never reach the provider.
pub proof fn lemma_provider_called_only_after_lookups(
    decision: SamplingApprovalRequestView,
    step: StepView,
    event: EventView,
)
    ensures
        !(spec_dispatch(decision) is Complete),
        !(spec_dispatch(decision) is ObtainProvider),
        spec_next(step, event) is Complete <==> step is ObtainProvider && event
            is ProviderObtained,
        spec_next(step, event) is ObtainProvider <==> step is ResolveAgent && event
            is AgentResolved,
        step is Finished ==> spec_next(step, event) == step,
{
}

/// Every failure of a lookup or of the completion is a fault on the
/// server's side, and ends the resolution.
pub proof fn lemma_outside_failures_are_server_errors(step: StepView, event: EventView)
    requires
        !(step is Finished),
        spec_next(step, event) is Finished,
        spec_next(step, event)->Finished_0 is Err,
    ensures
        spec_next(step, event)->Finished_0->Err_0.spec_status_code() == 500,
        step is ResolveAgent && event is SessionUnknown ==> spec_next(step, event)
            == StepView::Finished(Err(SamplingError::SessionNotFound)),
{
}

/// A reply of the provider always ends the resolution with a response that
/// names the provider's model and the stop reason `end_turn`.
pub proof fn lemma_completion_gives_response(
    system_prompt: Seq<char>,
    messages: Seq<MessageView>,
    tools: Seq<Seq<char>>,
    reply: MessageView,
    model: Seq<char>,
)
    ensures
        spec_next(
            StepView::Complete { system_prompt, messages, tools },
            EventView::Completed { message: reply, model },
        ) == StepView::Finished(Ok(spec_completion_response(reply, model))),
        spec_completion_response(reply, model).model == model,
        spec_completion_response(reply, model).stop_reason == Some("end_turn"@),
        spec_completion_response(reply, model).message.role == Role::Assistant,
{
}

/// A decision that is accepted, approval or edit with replacement messages,
/// ends with the provider's reply once both lookups have succeeded: the
/// response carries the reply translated, the provider's model and the
/// stop reason `end_turn`.
pub proof fn lemma_accepted_decision_ends_with_reply(
    decision: SamplingApprovalRequestView,
    reply: MessageView,
    model: Seq<char>,
)
    requires
        decision.action == "approve"@ || (decision.action == "edit"@ && decision.edited_messages
            is Some && decision.edited_messages->0.len() > 0),
    ensures
        spec_next(spec_provider_call(decision), EventView::Completed { message: reply, model })
            == StepView::Finished(Ok(spec_completion_response(reply, model))),
{
    lemma_action_tags();
}

/// Every resolution is over after three events at most, whatever the
/// decision and whatever the events.
pub proof fn lemma_resolution_ends_within_three_events(
    decision: SamplingApprovalRequestView,
    first: EventView,
    second: EventView,
    third: EventView,
)
    ensures
        spec_next(spec_next(spec_next(spec_dispatch(decision), first), second), third)
            is Finished,
{
}

} // verus!

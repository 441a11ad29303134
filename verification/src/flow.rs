//! The pay-and-retry flow as a state machine: each answer from outside moves
//! it one step on and tells the caller what to do next.

use crate::payment::{
    build_payment, is_first_offer, no_offer, offered_networks, payment_outcome, select_requirement,
    Payment, PaymentError, PaymentRequirement,
};
use crate::text::{joined, text_eq, to_uppercase, uppercase_text};
use crate::wallet::{Credential, WalletError};
use vstd::prelude::*;
use vstd::string::*;

verus! {

/// The status that asks for a payment.
pub const PAYMENT_REQUIRED: u16 = 402;

/// The methods that a request can be made with.
#[derive(Clone, Copy, Debug, PartialEq, Eq, Structural)]
pub enum HttpMethod {
    Get,
    Post,
    Put,
    Delete,
    Patch,
}

/// How an HTTP exchange ended.
#[derive(Clone, Debug, PartialEq, Eq)]
pub enum HttpOutcome {
    /// The request could not be sent; the text says why.
    SendFailed(String),
    /// A response came, but its body could not be read.
    BodyFailed { status: u16, reason: String },
    /// A response came.
    Reply { status: u16, body: String },
}

/// What happened outside since the last step.
#[derive(Debug, PartialEq, Eq)]
pub enum FlowEvent {
    /// The caller asks for a request with the method of this name.
    Start { method: String },
    /// An HTTP exchange ended.
    Http(HttpOutcome),
    /// The body of the "payment required" response was parsed: the offers it
    /// holds, or why it holds none.
    Requirements(Result<Vec<PaymentRequirement>, String>),
    /// The local credential was looked for: here it is, or why there is
    /// none.
    Credential(Result<Credential, WalletError>),
}

/// Where the flow stands.
#[derive(Clone, Debug, PartialEq, Eq)]
pub enum FlowState {
    /// Nothing was sent yet.
    Init,
    /// The request is on its way.
    RequestSent { method: HttpMethod },
    /// The remote party asks for a payment; its offers are being parsed.
    PaymentRequired { method: HttpMethod, body: String },
    /// An offer was taken; the local credential is being looked for. Once
    /// it is there, the payment is built and signed within the same step.
    RequirementsParsed { method: HttpMethod, offer: PaymentRequirement },
    /// The request is on its way again, with the payment attached.
    RetrySent { payment: Payment },
    /// The flow is over.
    Final,
}

/// What the flow hands back when it ends well.
#[derive(Clone, Debug, PartialEq, Eq)]
pub struct FlowResponse {
    pub status: u16,
    /// The body of the last response, as it came.
    pub response: String,
    /// The payment that was made, if one was asked for.
    pub payment: Option<Payment>,
}

/// Why the flow was given up.
#[derive(Clone, Debug, PartialEq, Eq)]
pub enum FlowError {
    UnsupportedMethod,
    /// The first request could not be sent.
    RequestFailed(String),
    /// The body of the first response could not be read.
    ResponseUnreadable(String),
    /// The body of the "payment required" response could not be read.
    RequirementsUnreadable(String),
    /// The body of the "payment required" response holds no offers.
    RequirementsMalformed { reason: String, response_text: String },
    /// No offer is on the payment network; these are the networks offered.
    UnsupportedNetwork { offered: Vec<String> },
    /// There is no local credential to pay with.
    Credential(WalletError),
    Payment(PaymentError),
    /// The retried request could not be sent.
    RetryFailed(String),
    /// The body of the last response could not be read.
    FinalUnreadable(String),
    /// The event does not answer what the flow last asked for.
    OutOfOrder,
}

/// What the caller does next.
#[derive(Debug, PartialEq, Eq)]
pub enum FlowAction {
    /// Send the caller's request, with the payment header if there is one,
    /// and come back with `FlowEvent::Http`.
    Send { method: HttpMethod, payment_header: Option<String> },
    /// Parse the offers out of this body and come back with
    /// `FlowEvent::Requirements`.
    ParseRequirements { body: String },
    /// Look for the local credential and come back with
    /// `FlowEvent::Credential`.
    LoadCredential,
    /// Hand this back to the caller.
    Finish(Result<FlowResponse, FlowError>),
}

impl FlowError {
    /// What the caller is told.
    pub open spec fn message_text(&self) -> Seq<char> {
        match self {
            FlowError::UnsupportedMethod => "Unsupported HTTP method"@,
            FlowError::RequestFailed(reason) => "Failed to make initial request: "@ + reason@,
            FlowError::ResponseUnreadable(reason) => "Failed to read response: "@ + reason@,
            FlowError::RequirementsUnreadable(reason) => "Failed to read 402 response: "@ + reason@,
            FlowError::RequirementsMalformed { reason, response_text } =>
                "Failed to parse x402 response: "@ + reason@,
            FlowError::UnsupportedNetwork { offered } =>
                "This API doesn't support Solana payments. Fuego only supports Solana x402 payments."@,
            FlowError::Credential(e) => e.message_text(),
            FlowError::Payment(e) => e.message_text(),
            FlowError::RetryFailed(reason) => "Failed to make retry request: "@ + reason@,
            FlowError::FinalUnreadable(reason) => "Failed to read final response: "@ + reason@,
            FlowError::OutOfOrder => "Unexpected event"@,
        }
    }

    /// What the caller is told.
    pub fn message(&self) -> (text: String)
        ensures
            text@ == self.message_text(),
    {
        match self {
            FlowError::UnsupportedMethod => String::from_str("Unsupported HTTP method"),
            FlowError::RequestFailed(reason) => joined(
                "Failed to make initial request: ",
                reason.as_str(),
            ),
            FlowError::ResponseUnreadable(reason) => joined(
                "Failed to read response: ",
                reason.as_str(),
            ),
            FlowError::RequirementsUnreadable(reason) => joined(
                "Failed to read 402 response: ",
                reason.as_str(),
            ),
            FlowError::RequirementsMalformed { reason, response_text } => joined(
                "Failed to parse x402 response: ",
                reason.as_str(),
            ),
            FlowError::UnsupportedNetwork { offered } => String::from_str(
                "This API doesn't support Solana payments. Fuego only supports Solana x402 payments.",
            ),
            FlowError::Credential(e) => e.message(),
            FlowError::Payment(e) => e.message(),
            FlowError::RetryFailed(reason) => joined(
                "Failed to make retry request: ",
                reason.as_str(),
            ),
            FlowError::FinalUnreadable(reason) => joined(
                "Failed to read final response: ",
                reason.as_str(),
            ),
            FlowError::OutOfOrder => String::from_str("Unexpected event"),
        }
    }
}

/// The method that an upper-case name stands for.
pub open spec fn method_named(upper: Seq<char>) -> Option<HttpMethod> {
    if upper == "GET"@ {
        Some(HttpMethod::Get)
    } else if upper == "POST"@ {
        Some(HttpMethod::Post)
    } else if upper == "PUT"@ {
        Some(HttpMethod::Put)
    } else if upper == "DELETE"@ {
        Some(HttpMethod::Delete)
    } else if upper == "PATCH"@ {
        Some(HttpMethod::Patch)
    } else {
        None
    }
}

/// How far a state is from the start.
pub open spec fn rank(state: FlowState) -> nat {
    match state {
        FlowState::Init => 0,
        FlowState::RequestSent { .. } => 1,
        FlowState::PaymentRequired { .. } => 2,
        FlowState::RequirementsParsed { .. } => 3,
        FlowState::RetrySent { .. } => 4,
        FlowState::Final => 5,
    }
}

/// Whether the flow ends here with this failure.
pub open spec fn fails_with(next: FlowState, action: FlowAction, error: FlowError) -> bool {
    next == FlowState::Final && action == FlowAction::Finish(
        Err::<FlowResponse, FlowError>(error),
    )
}

/// Whether the flow ends here with this response.
pub open spec fn ends_with(next: FlowState, action: FlowAction, response: FlowResponse) -> bool {
    next == FlowState::Final && action == FlowAction::Finish(
        Ok::<FlowResponse, FlowError>(response),
    )
}

/// What follows the start: the request is sent, if its method is known.
pub open spec fn after_start(method: String, next: FlowState, action: FlowAction) -> bool {
    match method_named(uppercase_text(method@)) {
        Some(m) => next == (FlowState::RequestSent { method: m }) && action == (FlowAction::Send {
            method: m,
            payment_header: None,
        }),
        None => fails_with(next, action, FlowError::UnsupportedMethod),
    }
}

/// What follows the first exchange: any status but "payment required" ends
/// the flow with the response as it came.
pub open spec fn after_first_exchange(
    method: HttpMethod,
    outcome: HttpOutcome,
    next: FlowState,
    action: FlowAction,
) -> bool {
    match outcome {
        HttpOutcome::SendFailed(reason) => fails_with(next, action, FlowError::RequestFailed(reason)),
        HttpOutcome::BodyFailed { status, reason } => if status == PAYMENT_REQUIRED {
            fails_with(next, action, FlowError::RequirementsUnreadable(reason))
        } else {
            fails_with(next, action, FlowError::ResponseUnreadable(reason))
        },
        HttpOutcome::Reply { status, body } => if status == PAYMENT_REQUIRED {
            next == (FlowState::PaymentRequired { method, body }) && action
                == (FlowAction::ParseRequirements { body })
        } else {
            ends_with(next, action, FlowResponse { status, response: body, payment: None })
        },
    }
}

/// What follows the parsing of the offers: the first offer on the payment
/// network is taken.
pub open spec fn after_requirements(
    method: HttpMethod,
    body: String,
    parsed: Result<Vec<PaymentRequirement>, String>,
    next: FlowState,
    action: FlowAction,
) -> bool {
    match parsed {
        Err(reason) => fails_with(
            next,
            action,
            FlowError::RequirementsMalformed { reason, response_text: body },
        ),
        Ok(offers) => if no_offer(offers@) {
            &&& next == FlowState::Final
            &&& action matches FlowAction::Finish(Err(FlowError::UnsupportedNetwork { offered }))
            &&& offered@.len() == offers@.len()
            &&& forall|j: int| 0 <= j < offers@.len() ==> offered@[j]@ == offers@[j].network@
        } else {
            &&& action == FlowAction::LoadCredential
            &&& next matches FlowState::RequirementsParsed { method: m, offer }
            &&& m == method
            &&& exists|at: int| is_first_offer(offers@, at) && offer == offers@[at]
        },
    }
}

/// What follows the look for the credential: the offer is paid and the
/// request sent again, once.
pub open spec fn after_credential(
    method: HttpMethod,
    offer: PaymentRequirement,
    lookup: Result<Credential, WalletError>,
    next: FlowState,
    action: FlowAction,
) -> bool {
    match lookup {
        Err(e) => fails_with(next, action, FlowError::Credential(e)),
        Ok(credential) => match payment_outcome(
            offer,
            credential.address@,
            credential.private_key@,
        ) {
            Ok(paid) => {
                &&& next matches FlowState::RetrySent { payment }
                &&& payment@ == paid
                &&& action matches FlowAction::Send { method: m, payment_header: Some(header) }
                &&& m == method
                &&& header@ == paid.header
            },
            Err(reason) => {
                &&& next == FlowState::Final
                &&& action matches FlowAction::Finish(Err(FlowError::Payment(e)))
                &&& e@ == reason
            },
        },
    }
}

/// What follows the second exchange: the flow ends with the response as it
/// came and the payment that was made.
pub open spec fn after_retry(
    payment: Payment,
    outcome: HttpOutcome,
    next: FlowState,
    action: FlowAction,
) -> bool {
    match outcome {
        HttpOutcome::SendFailed(reason) => fails_with(next, action, FlowError::RetryFailed(reason)),
        HttpOutcome::BodyFailed { status, reason } => fails_with(
            next,
            action,
            FlowError::FinalUnreadable(reason),
        ),
        HttpOutcome::Reply { status, body } => ends_with(
            next,
            action,
            FlowResponse { status, response: body, payment: Some(payment) },
        ),
    }
}

/// Whether `next` and `action` are what follows `event` in `state`. An event
/// that does not answer what the state waits for ends the flow.
pub open spec fn follows(
    state: FlowState,
    event: FlowEvent,
    next: FlowState,
    action: FlowAction,
) -> bool {
    match (state, event) {
        (FlowState::Init, FlowEvent::Start { method }) => after_start(method, next, action),
        (FlowState::RequestSent { method }, FlowEvent::Http(outcome)) => after_first_exchange(
            method,
            outcome,
            next,
            action,
        ),
        (
            FlowState::PaymentRequired { method, body },
            FlowEvent::Requirements(parsed),
        ) => after_requirements(method, body, parsed, next, action),
        (
            FlowState::RequirementsParsed { method, offer },
            FlowEvent::Credential(lookup),
        ) => after_credential(method, offer, lookup, next, action),
        (FlowState::RetrySent { payment }, FlowEvent::Http(outcome)) => after_retry(
            payment,
            outcome,
            next,
            action,
        ),
        _ => fails_with(next, action, FlowError::OutOfOrder),
    }
}

/// The name of the method of a request that names none.
pub fn default_method() -> (method: String)
    ensures
        method@ == "GET"@,
        method_named(method@) == Some(HttpMethod::Get),
{
    String::from_str("GET")
}

/// Reads the method of a request from its name, in any case.
pub fn parse_method(method: &str) -> (r: Option<HttpMethod>)
    ensures
        r == method_named(uppercase_text(method@)),
{
    let upper = to_uppercase(method);
    if text_eq(upper.as_str(), "GET") {
        Some(HttpMethod::Get)
    } else if text_eq(upper.as_str(), "POST") {
        Some(HttpMethod::Post)
    } else if text_eq(upper.as_str(), "PUT") {
        Some(HttpMethod::Put)
    } else if text_eq(upper.as_str(), "DELETE") {
        Some(HttpMethod::Delete)
    } else if text_eq(upper.as_str(), "PATCH") {
        Some(HttpMethod::Patch)
    } else {
        None
    }
}

fn give_up(error: FlowError) -> (r: (FlowState, FlowAction))
    ensures
        fails_with(r.0, r.1, error),
{
    (FlowState::Final, FlowAction::Finish(Err(error)))
}

fn first_exchange(method: HttpMethod, outcome: HttpOutcome) -> (r: (FlowState, FlowAction))
    ensures
        after_first_exchange(method, outcome, r.0, r.1),
{
    match outcome {
        HttpOutcome::SendFailed(reason) => give_up(FlowError::RequestFailed(reason)),
        HttpOutcome::BodyFailed { status, reason } => if status == PAYMENT_REQUIRED {
            give_up(FlowError::RequirementsUnreadable(reason))
        } else {
            give_up(FlowError::ResponseUnreadable(reason))
        },
        HttpOutcome::Reply { status, body } => if status == PAYMENT_REQUIRED {
            let copy = body.clone();
            (FlowState::PaymentRequired { method, body }, FlowAction::ParseRequirements { body: copy })
        } else {
            (
                FlowState::Final,
                FlowAction::Finish(Ok(FlowResponse { status, response: body, payment: None })),
            )
        },
    }
}

fn requirements(method: HttpMethod, body: String, parsed: Result<Vec<PaymentRequirement>, String>) -> (r:
    (FlowState, FlowAction))
    ensures
        after_requirements(method, body, parsed, r.0, r.1),
{
    match parsed {
        Err(reason) => give_up(FlowError::RequirementsMalformed { reason, response_text: body }),
        Ok(offers) => match select_requirement(&offers) {
            None => {
                let offered = offered_networks(&offers);
                (
                    FlowState::Final,
                    FlowAction::Finish(Err(FlowError::UnsupportedNetwork { offered })),
                )
            },
            Some(at) => {
                let mut offers = offers;
                let offer = offers.remove(at);
                (FlowState::RequirementsParsed { method, offer }, FlowAction::LoadCredential)
            },
        },
    }
}

fn credential(
    method: HttpMethod,
    offer: PaymentRequirement,
    lookup: Result<Credential, WalletError>,
) -> (r: (FlowState, FlowAction))
    ensures
        after_credential(method, offer, lookup, r.0, r.1),
{
    match lookup {
        Err(e) => give_up(FlowError::Credential(e)),
        Ok(credential) => match build_payment(&offer, &credential) {
            Ok(payment) => {
                let header = payment.header.clone();
                (
                    FlowState::RetrySent { payment },
                    FlowAction::Send { method, payment_header: Some(header) },
                )
            },
            Err(e) => (FlowState::Final, FlowAction::Finish(Err(FlowError::Payment(e)))),
        },
    }
}

fn retry(payment: Payment, outcome: HttpOutcome) -> (r: (FlowState, FlowAction))
    ensures
        after_retry(payment, outcome, r.0, r.1),
{
    match outcome {
        HttpOutcome::SendFailed(reason) => give_up(FlowError::RetryFailed(reason)),
        HttpOutcome::BodyFailed { status, reason } => give_up(FlowError::FinalUnreadable(reason)),
        HttpOutcome::Reply { status, body } => (
            FlowState::Final,
            FlowAction::Finish(Ok(FlowResponse { status, response: body, payment: Some(payment) })),
        ),
    }
}

/// Moves the flow one step on: from where it stands and what happened
/// outside to where it stands next and what the caller does next.
pub fn x402_request(state: FlowState, event: FlowEvent) -> (r: (FlowState, FlowAction))
    ensures
        follows(state, event, r.0, r.1),
{
    match (state, event) {
        (FlowState::Init, FlowEvent::Start { method }) => match parse_method(method.as_str()) {
            Some(m) => (
                FlowState::RequestSent { method: m },
                FlowAction::Send { method: m, payment_header: None },
            ),
            None => give_up(FlowError::UnsupportedMethod),
        },
        (FlowState::RequestSent { method }, FlowEvent::Http(outcome)) => first_exchange(
            method,
            outcome,
        ),
        (FlowState::PaymentRequired { method, body }, FlowEvent::Requirements(parsed)) => requirements(
            method,
            body,
            parsed,
        ),
        (
            FlowState::RequirementsParsed { method, offer },
            FlowEvent::Credential(lookup),
        ) => credential(method, offer, lookup),
        (FlowState::RetrySent { payment }, FlowEvent::Http(outcome)) => retry(payment, outcome),
        _ => give_up(FlowError::OutOfOrder),
    }
}

/// Every step takes the flow further from its start, or ends it: the flow
/// never goes back and never stays where it is.
pub proof fn law_flow_advances(
    state: FlowState,
    event: FlowEvent,
    next: FlowState,
    action: FlowAction,
)
    requires
        follows(state, event, next, action),
    ensures
        next == FlowState::Final || rank(next) == rank(state) + 1,
        action is Finish <==> next == FlowState::Final,
{
}

/// A request goes out without a payment only at the start, and with a
/// payment only once an offer was taken and paid: there is one retry at
/// most, and a failure is never followed by another attempt.
pub proof fn law_single_retry(
    state: FlowState,
    event: FlowEvent,
    next: FlowState,
    action: FlowAction,
)
    requires
        follows(state, event, next, action),
        action is Send,
    ensures
        action->payment_header is None <==> state == FlowState::Init,
        action->payment_header is Some <==> state is RequirementsParsed,
        action->payment_header is Some ==> next is RetrySent,
{
}

} // verus!

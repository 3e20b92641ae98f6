//! One call to the secure hardware monitor: open a session, submit a single
//! attestation request, close the session, and only then hand out the result.
//!
//! The device itself is driven from outside. [`BridgeCall`] decides what the
//! driver does next and what the call returns.

use vstd::prelude::*;

verus! {

/// An error code that the monitor reports in place of a document.
#[derive(Debug, Clone, Copy, PartialEq, Eq)]
pub enum ErrorCode {
    Success,
    InvalidArgument,
    InvalidIndex,
    InvalidResponse,
    ReadOnlyIndex,
    InvalidOperation,
    BufferTooSmall,
    InputTooLarge,
    InternalError,
}

impl ErrorCode {
    /// The name of the code, as it appears in failure messages.
    pub open spec fn name(self) -> Seq<char> {
        match self {
            ErrorCode::Success => "Success"@,
            ErrorCode::InvalidArgument => "InvalidArgument"@,
            ErrorCode::InvalidIndex => "InvalidIndex"@,
            ErrorCode::InvalidResponse => "InvalidResponse"@,
            ErrorCode::ReadOnlyIndex => "ReadOnlyIndex"@,
            ErrorCode::InvalidOperation => "InvalidOperation"@,
            ErrorCode::BufferTooSmall => "BufferTooSmall"@,
            ErrorCode::InputTooLarge => "InputTooLarge"@,
            ErrorCode::InternalError => "InternalError"@,
        }
    }

    /// The name of the code.
    pub fn label(&self) -> (r: &'static str)
        ensures
            r@ == self.name(),
    {
        match self {
            ErrorCode::Success => "Success",
            ErrorCode::InvalidArgument => "InvalidArgument",
            ErrorCode::InvalidIndex => "InvalidIndex",
            ErrorCode::InvalidResponse => "InvalidResponse",
            ErrorCode::ReadOnlyIndex => "ReadOnlyIndex",
            ErrorCode::InvalidOperation => "InvalidOperation",
            ErrorCode::BufferTooSmall => "BufferTooSmall",
            ErrorCode::InputTooLarge => "InputTooLarge",
            ErrorCode::InternalError => "InternalError",
        }
    }
}

/// The bytes behind an optional buffer.
pub open spec fn optional_bytes(buffer: Option<Vec<u8>>) -> Option<Seq<u8>> {
    match buffer {
        Some(bytes) => Some(bytes@),
        None => None,
    }
}

/// An attestation request as the monitor takes it.
#[derive(Debug, Clone, PartialEq, Eq)]
pub struct MonitorRequest {
    pub user_data: Option<Vec<u8>>,
    pub nonce: Option<Vec<u8>>,
    pub public_key: Option<Vec<u8>>,
}

/// A [`MonitorRequest`] as mathematical values.
pub struct MonitorRequestModel {
    pub user_data: Option<Seq<u8>>,
    pub nonce: Option<Seq<u8>>,
    pub public_key: Option<Seq<u8>>,
}

impl View for MonitorRequest {
    type V = MonitorRequestModel;

    open spec fn view(&self) -> MonitorRequestModel {
        MonitorRequestModel {
            user_data: optional_bytes(self.user_data),
            nonce: optional_bytes(self.nonce),
            public_key: optional_bytes(self.public_key),
        }
    }
}

impl MonitorRequestModel {
    /// The request that binds `user_data` and `nonce` and carries no public key.
    pub open spec fn binding(user_data: Seq<u8>, nonce: Seq<u8>) -> MonitorRequestModel {
        MonitorRequestModel { user_data: Some(user_data), nonce: Some(nonce), public_key: None }
    }
}

impl MonitorRequest {
    /// Builds the request that binds `user_data` and `nonce` and carries no
    /// public key.
    pub fn binding(user_data: Vec<u8>, nonce: Vec<u8>) -> (r: MonitorRequest)
        ensures
            r@ == MonitorRequestModel::binding(user_data@, nonce@),
    {
        MonitorRequest { user_data: Some(user_data), nonce: Some(nonce), public_key: None }
    }
}

/// What the monitor answered, as far as the bridge tells answers apart.
#[derive(Debug, Clone, PartialEq, Eq)]
pub enum MonitorResponse {
    /// The signed attestation document.
    Attestation { document: Vec<u8> },
    /// An explicit error.
    Error(ErrorCode),
    /// A well-formed answer to some other kind of request.
    Other,
}

/// A [`MonitorResponse`] as mathematical values.
pub enum MonitorResponseModel {
    Attestation { document: Seq<u8> },
    Error(ErrorCode),
    Other,
}

impl View for MonitorResponse {
    type V = MonitorResponseModel;

    open spec fn view(&self) -> MonitorResponseModel {
        match *self {
            MonitorResponse::Attestation { document } => MonitorResponseModel::Attestation {
                document: document@,
            },
            MonitorResponse::Error(code) => MonitorResponseModel::Error(code),
            MonitorResponse::Other => MonitorResponseModel::Other,
        }
    }
}

/// Why a call to the monitor produced no document.
#[derive(Debug, Clone, Copy, PartialEq, Eq)]
pub enum BridgeError {
    /// The monitor answered with an error code.
    Device(ErrorCode),
    /// The monitor answered with something that is not an attestation.
    UnexpectedResponse,
}

impl BridgeError {
    /// The description of the failure that is reported to the caller.
    pub open spec fn text(self) -> Seq<char> {
        match self {
            BridgeError::Device(code) => "NSM Error: "@ + code.name(),
            BridgeError::UnexpectedResponse => "NSM Error: Unexpected response type returned"@,
        }
    }

    /// Writes the description of the failure.
    pub fn message(&self) -> (r: String)
        ensures
            r@ == self.text(),
    {
        match self {
            BridgeError::Device(code) => {
                let mut text = String::from_str("NSM Error: ");
                text.append(code.label());
                text
            },
            BridgeError::UnexpectedResponse => String::from_str(
                "NSM Error: Unexpected response type returned",
            ),
        }
    }
}

/// The result of a call: the document, or why there is none.
pub type Outcome = Result<Vec<u8>, BridgeError>;

/// An [`Outcome`] as mathematical values.
pub type OutcomeModel = Result<Seq<u8>, BridgeError>;

/// The mathematical value of the result of a call.
pub open spec fn outcome_model(outcome: Outcome) -> OutcomeModel {
    match outcome {
        Ok(document) => Ok(document@),
        Err(error) => Err(error),
    }
}

impl MonitorResponseModel {
    /// What the call returns for an answer of the monitor.
    pub open spec fn outcome(self) -> OutcomeModel {
        match self {
            MonitorResponseModel::Attestation { document } => Ok(document),
            MonitorResponseModel::Error(code) => Err(BridgeError::Device(code)),
            MonitorResponseModel::Other => Err(BridgeError::UnexpectedResponse),
        }
    }
}

impl MonitorResponse {
    /// Turns the monitor's answer into the result of the call.
    pub fn into_outcome(self) -> (r: Outcome)
        ensures
            outcome_model(r) == self@.outcome(),
    {
        match self {
            MonitorResponse::Attestation { document } => Ok(document),
            MonitorResponse::Error(code) => Err(BridgeError::Device(code)),
            MonitorResponse::Other => Err(BridgeError::UnexpectedResponse),
        }
    }
}

/// Where a call stands. A call starts idle, opens a session, submits its one
/// request, and closes the session; only a closed call returns.
#[derive(Debug, PartialEq, Eq)]
pub enum BridgeCall {
    /// No session yet; the request waits to be submitted.
    Idle { request: MonitorRequest },
    /// A session is open on `fd` and the request is with the monitor.
    SessionOpen { fd: i32 },
    /// The monitor has answered; the session on `fd` is still open.
    RequestSubmitted { fd: i32, outcome: Outcome },
    /// The session is closed and the result was handed out.
    SessionClosed { success: bool },
}

/// A [`BridgeCall`] as mathematical values.
pub enum BridgeCallModel {
    Idle { request: MonitorRequestModel },
    SessionOpen { fd: i32 },
    RequestSubmitted { fd: i32, outcome: OutcomeModel },
    SessionClosed { success: bool },
}

impl View for BridgeCall {
    type V = BridgeCallModel;

    open spec fn view(&self) -> BridgeCallModel {
        match *self {
            BridgeCall::Idle { request } => BridgeCallModel::Idle { request: request@ },
            BridgeCall::SessionOpen { fd } => BridgeCallModel::SessionOpen { fd },
            BridgeCall::RequestSubmitted { fd, outcome } => BridgeCallModel::RequestSubmitted {
                fd,
                outcome: outcome_model(outcome),
            },
            BridgeCall::SessionClosed { success } => BridgeCallModel::SessionClosed { success },
        }
    }
}

/// What the driver reports after carrying out an action.
#[derive(Debug, PartialEq, Eq)]
pub enum BridgeEvent {
    /// A session was opened; the descriptor is the device's, valid or not.
    Opened(i32),
    /// The monitor answered the request.
    Responded(MonitorResponse),
    /// The session was closed.
    Closed,
}

/// A [`BridgeEvent`] as mathematical values.
pub enum BridgeEventModel {
    Opened(i32),
    Responded(MonitorResponseModel),
    Closed,
}

impl View for BridgeEvent {
    type V = BridgeEventModel;

    open spec fn view(&self) -> BridgeEventModel {
        match *self {
            BridgeEvent::Opened(fd) => BridgeEventModel::Opened(fd),
            BridgeEvent::Responded(response) => BridgeEventModel::Responded(response@),
            BridgeEvent::Closed => BridgeEventModel::Closed,
        }
    }
}

/// What the driver does next.
#[derive(Debug, PartialEq, Eq)]
pub enum BridgeAction {
    /// Open a session with the monitor.
    Open,
    /// Submit the request on the open session.
    Submit { fd: i32, request: MonitorRequest },
    /// Close the session.
    Close { fd: i32 },
    /// The call is over: hand this result to the caller.
    Return(Outcome),
    /// The event did not answer the pending action; nothing changed.
    Ignore,
}

/// A [`BridgeAction`] as mathematical values.
pub enum BridgeActionModel {
    Open,
    Submit { fd: i32, request: MonitorRequestModel },
    Close { fd: i32 },
    Return(OutcomeModel),
    Ignore,
}

impl View for BridgeAction {
    type V = BridgeActionModel;

    open spec fn view(&self) -> BridgeActionModel {
        match *self {
            BridgeAction::Open => BridgeActionModel::Open,
            BridgeAction::Submit { fd, request } => BridgeActionModel::Submit {
                fd,
                request: request@,
            },
            BridgeAction::Close { fd } => BridgeActionModel::Close { fd },
            BridgeAction::Return(outcome) => BridgeActionModel::Return(outcome_model(outcome)),
            BridgeAction::Ignore => BridgeActionModel::Ignore,
        }
    }
}

impl BridgeCallModel {
    /// The call that is about to bind `user_data` and `nonce`.
    pub open spec fn start(user_data: Seq<u8>, nonce: Seq<u8>) -> BridgeCallModel {
        BridgeCallModel::Idle { request: MonitorRequestModel::binding(user_data, nonce) }
    }

    /// The state after an event, and the action that the event calls for.
    pub open spec fn next(self, event: BridgeEventModel) -> (BridgeCallModel, BridgeActionModel) {
        match (self, event) {
            (BridgeCallModel::Idle { request }, BridgeEventModel::Opened(fd)) => (
                BridgeCallModel::SessionOpen { fd },
                BridgeActionModel::Submit { fd, request },
            ),
            (BridgeCallModel::SessionOpen { fd }, BridgeEventModel::Responded(response)) => (
                BridgeCallModel::RequestSubmitted { fd, outcome: response.outcome() },
                BridgeActionModel::Close { fd },
            ),
            (BridgeCallModel::RequestSubmitted { fd, outcome }, BridgeEventModel::Closed) => (
                BridgeCallModel::SessionClosed { success: outcome is Ok },
                BridgeActionModel::Return(outcome),
            ),
            (state, _) => (state, BridgeActionModel::Ignore),
        }
    }
}

impl BridgeCall {
    /// Starts a call for `user_data` and `nonce`. The first action is always to
    /// open a session.
    pub fn begin(user_data: Vec<u8>, nonce: Vec<u8>) -> (r: (BridgeCall, BridgeAction))
        ensures
            r.0@ == BridgeCallModel::start(user_data@, nonce@),
            r.1@ == BridgeActionModel::Open,
    {
        (BridgeCall::Idle { request: MonitorRequest::binding(user_data, nonce) }, BridgeAction::Open)
    }

    /// Takes the driver's report and says what to do next.
    pub fn step(self, event: BridgeEvent) -> (r: (BridgeCall, BridgeAction))
        ensures
            (r.0@, r.1@) == self@.next(event@),
    {
        match self {
            BridgeCall::Idle { request } => match event {
                BridgeEvent::Opened(fd) => (
                    BridgeCall::SessionOpen { fd },
                    BridgeAction::Submit { fd, request },
                ),
                _ => (BridgeCall::Idle { request }, BridgeAction::Ignore),
            },
            BridgeCall::SessionOpen { fd } => match event {
                BridgeEvent::Responded(response) => (
                    BridgeCall::RequestSubmitted { fd, outcome: response.into_outcome() },
                    BridgeAction::Close { fd },
                ),
                _ => (BridgeCall::SessionOpen { fd }, BridgeAction::Ignore),
            },
            BridgeCall::RequestSubmitted { fd, outcome } => match event {
                BridgeEvent::Closed => (
                    BridgeCall::SessionClosed { success: outcome.is_ok() },
                    BridgeAction::Return(outcome),
                ),
                _ => (BridgeCall::RequestSubmitted { fd, outcome }, BridgeAction::Ignore),
            },
            BridgeCall::SessionClosed { success } => (
                BridgeCall::SessionClosed { success },
                BridgeAction::Ignore,
            ),
        }
    }
}

/// A result is handed out only by the step that closes the session, and that
/// step returns exactly what the monitor's answer gave.
pub proof fn lemma_return_only_on_close(state: BridgeCallModel, event: BridgeEventModel)
    ensures
        state.next(event).1 is Return ==> {
            &&& state matches BridgeCallModel::RequestSubmitted { outcome, .. }
            &&& event is Closed
            &&& state.next(event).0 == (BridgeCallModel::SessionClosed { success: outcome is Ok })
            &&& state.next(event).1 == BridgeActionModel::Return(outcome)
        },
{
}

/// A session that was opened is closed before anything else happens: while a
/// session is open, the only actions are to close it or to wait, and the
/// descriptor to close is the one that was opened.
pub proof fn lemma_open_session_is_closed(state: BridgeCallModel, event: BridgeEventModel)
    ensures
        state matches BridgeCallModel::SessionOpen { fd } ==> {
            ||| state.next(event) == (state, BridgeActionModel::Ignore)
            ||| state.next(event).1 == (BridgeActionModel::Close { fd })
        },
        state is SessionClosed ==> state.next(event) == (state, BridgeActionModel::Ignore),
{
}

/// Driven faithfully, a call opens one session, submits the request that binds
/// the caller's bytes and no public key, closes the same session whatever the
/// monitor answered, and then returns the answer's result.
pub proof fn lemma_call_runs_to_close(
    user_data: Seq<u8>,
    nonce: Seq<u8>,
    fd: i32,
    response: MonitorResponseModel,
)
    ensures
        ({
            let idle = BridgeCallModel::start(user_data, nonce);
            let opened = idle.next(BridgeEventModel::Opened(fd));
            let responded = opened.0.next(BridgeEventModel::Responded(response));
            let closed = responded.0.next(BridgeEventModel::Closed);
            &&& opened.1 == (BridgeActionModel::Submit {
                fd,
                request: MonitorRequestModel::binding(user_data, nonce),
            })
            &&& responded.1 == (BridgeActionModel::Close { fd })
            &&& closed.1 == BridgeActionModel::Return(response.outcome())
            &&& closed.0 == (BridgeCallModel::SessionClosed { success: response.outcome() is Ok })
        }),
{
}

} // verus!

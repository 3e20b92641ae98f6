use attestation_bridge::monitor::{
    BridgeAction, BridgeCall, BridgeError, BridgeEvent, ErrorCode, MonitorRequest,
    MonitorResponse,
};
use aws_nitro_enclaves_nsm_api::api;

fn codes() -> Vec<(ErrorCode, api::ErrorCode)> {
    vec![
        (ErrorCode::Success, api::ErrorCode::Success),
        (ErrorCode::InvalidArgument, api::ErrorCode::InvalidArgument),
        (ErrorCode::InvalidIndex, api::ErrorCode::InvalidIndex),
        (ErrorCode::InvalidResponse, api::ErrorCode::InvalidResponse),
        (ErrorCode::ReadOnlyIndex, api::ErrorCode::ReadOnlyIndex),
        (ErrorCode::InvalidOperation, api::ErrorCode::InvalidOperation),
        (ErrorCode::BufferTooSmall, api::ErrorCode::BufferTooSmall),
        (ErrorCode::InputTooLarge, api::ErrorCode::InputTooLarge),
        (ErrorCode::InternalError, api::ErrorCode::InternalError),
    ]
}

#[test]
fn code_labels_are_the_devices_names() {
    for (code, device_code) in codes() {
        assert_eq!(code.label(), format!("{:?}", device_code));
    }
}

#[test]
fn device_error_message_names_the_code() {
    for (code, device_code) in codes() {
        assert_eq!(
            BridgeError::Device(code).message(),
            format!("NSM Error: {:?}", device_code)
        );
    }
    assert_eq!(BridgeError::Device(ErrorCode::BufferTooSmall).message(), "NSM Error: BufferTooSmall");
}

#[test]
fn unexpected_response_message() {
    assert_eq!(
        BridgeError::UnexpectedResponse.message(),
        "NSM Error: Unexpected response type returned"
    );
}

#[test]
fn request_binds_both_buffers_and_no_key() {
    let request = MonitorRequest::binding(vec![1, 2], vec![3]);
    assert_eq!(
        request,
        MonitorRequest { user_data: Some(vec![1, 2]), nonce: Some(vec![3]), public_key: None }
    );
    let empty = MonitorRequest::binding(Vec::new(), Vec::new());
    assert_eq!(
        empty,
        MonitorRequest { user_data: Some(Vec::new()), nonce: Some(Vec::new()), public_key: None }
    );
}

#[test]
fn each_answer_has_its_outcome() {
    assert_eq!(
        MonitorResponse::Attestation { document: vec![4, 5, 6] }.into_outcome(),
        Ok(vec![4, 5, 6])
    );
    assert_eq!(
        MonitorResponse::Error(ErrorCode::InputTooLarge).into_outcome(),
        Err(BridgeError::Device(ErrorCode::InputTooLarge))
    );
    assert_eq!(
        MonitorResponse::Error(ErrorCode::Success).into_outcome(),
        Err(BridgeError::Device(ErrorCode::Success))
    );
    assert_eq!(MonitorResponse::Other.into_outcome(), Err(BridgeError::UnexpectedResponse));
}

#[test]
fn call_opens_submits_closes_then_returns() {
    let (call, action) = BridgeCall::begin(b"data".to_vec(), b"once".to_vec());
    assert_eq!(
        call,
        BridgeCall::Idle { request: MonitorRequest::binding(b"data".to_vec(), b"once".to_vec()) }
    );
    assert_eq!(action, BridgeAction::Open);

    let (call, action) = call.step(BridgeEvent::Opened(11));
    assert_eq!(call, BridgeCall::SessionOpen { fd: 11 });
    assert_eq!(
        action,
        BridgeAction::Submit {
            fd: 11,
            request: MonitorRequest {
                user_data: Some(b"data".to_vec()),
                nonce: Some(b"once".to_vec()),
                public_key: None,
            },
        }
    );

    let (call, action) =
        call.step(BridgeEvent::Responded(MonitorResponse::Attestation { document: vec![8, 9] }));
    assert_eq!(call, BridgeCall::RequestSubmitted { fd: 11, outcome: Ok(vec![8, 9]) });
    assert_eq!(action, BridgeAction::Close { fd: 11 });

    let (call, action) = call.step(BridgeEvent::Closed);
    assert_eq!(call, BridgeCall::SessionClosed { success: true });
    assert_eq!(action, BridgeAction::Return(Ok(vec![8, 9])));
}

#[test]
fn failed_call_still_closes_before_it_returns() {
    let (call, _) = BridgeCall::begin(Vec::new(), Vec::new());
    let (call, _) = call.step(BridgeEvent::Opened(-1));
    let (call, action) =
        call.step(BridgeEvent::Responded(MonitorResponse::Error(ErrorCode::InternalError)));
    assert_eq!(
        call,
        BridgeCall::RequestSubmitted {
            fd: -1,
            outcome: Err(BridgeError::Device(ErrorCode::InternalError)),
        }
    );
    assert_eq!(action, BridgeAction::Close { fd: -1 });
    let (call, action) = call.step(BridgeEvent::Closed);
    assert_eq!(call, BridgeCall::SessionClosed { success: false });
    assert_eq!(action, BridgeAction::Return(Err(BridgeError::Device(ErrorCode::InternalError))));
}

#[test]
fn unexpected_answer_closes_and_fails() {
    let (call, _) = BridgeCall::begin(vec![1], vec![2]);
    let (call, _) = call.step(BridgeEvent::Opened(3));
    let (call, action) = call.step(BridgeEvent::Responded(MonitorResponse::Other));
    assert_eq!(action, BridgeAction::Close { fd: 3 });
    let (call, action) = call.step(BridgeEvent::Closed);
    assert_eq!(call, BridgeCall::SessionClosed { success: false });
    assert_eq!(action, BridgeAction::Return(Err(BridgeError::UnexpectedResponse)));
}

#[test]
fn a_report_out_of_step_changes_nothing() {
    let (call, _) = BridgeCall::begin(vec![1], vec![2]);
    let (call, action) = call.step(BridgeEvent::Closed);
    assert_eq!(call, BridgeCall::Idle { request: MonitorRequest::binding(vec![1], vec![2]) });
    assert_eq!(action, BridgeAction::Ignore);

    let (call, _) = call.step(BridgeEvent::Opened(5));
    let (call, action) = call.step(BridgeEvent::Opened(6));
    assert_eq!(call, BridgeCall::SessionOpen { fd: 5 });
    assert_eq!(action, BridgeAction::Ignore);
    let (call, action) = call.step(BridgeEvent::Closed);
    assert_eq!(call, BridgeCall::SessionOpen { fd: 5 });
    assert_eq!(action, BridgeAction::Ignore);

    let (call, _) = call.step(BridgeEvent::Responded(MonitorResponse::Other));
    let (call, action) = call.step(BridgeEvent::Responded(MonitorResponse::Other));
    assert_eq!(
        call,
        BridgeCall::RequestSubmitted { fd: 5, outcome: Err(BridgeError::UnexpectedResponse) }
    );
    assert_eq!(action, BridgeAction::Ignore);

    let (call, _) = call.step(BridgeEvent::Closed);
    let (call, action) = call.step(BridgeEvent::Closed);
    assert_eq!(call, BridgeCall::SessionClosed { success: false });
    assert_eq!(action, BridgeAction::Ignore);
}

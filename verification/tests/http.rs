use cartesi_rollups::http::decode_envelope;
use cartesi_rollups::http::parse_request_type;
use cartesi_rollups::http::run_finish_loop;
use cartesi_rollups::http::Envelope;
use cartesi_rollups::http::EnvelopeError;
use cartesi_rollups::http::FinishLoopOutcome;
use cartesi_rollups::http::FinishResponse;
use cartesi_rollups::http::HttpSession;
use cartesi_rollups::http::RequestType;

fn advance_envelope(payload: &str, epoch_index: u64, input_index: u64) -> Envelope {
    Envelope {
        request_type: "advance_state".to_owned(),
        msg_sender: "0x00aa".to_owned(),
        epoch_index,
        input_index,
        block_number: 11,
        timestamp: 12,
        payload: payload.to_owned(),
    }
}

#[test]
fn two_accepted_then_ok_issues_three_finish_calls_and_decodes_once() {
    let responses = vec![
        FinishResponse { status: 202, envelope: None },
        FinishResponse { status: 202, envelope: None },
        FinishResponse { status: 200, envelope: Some(advance_envelope("0x0102", 3, 4)) },
    ];

    let (issued, outcome) = run_finish_loop(&responses);
    assert_eq!(issued, 3);
    match outcome {
        FinishLoopOutcome::Decoded(result) => {
            let request = result.unwrap();
            assert_eq!(request.request_type, RequestType::AdvanceState);
            assert_eq!(request.data.metadata.msg_sender, "0x00aa");
            assert_eq!(request.data.metadata.epoch_index, 3);
            assert_eq!(request.data.metadata.input_index, 4);
            assert_eq!(request.data.metadata.block_number, 11);
            assert_eq!(request.data.metadata.timestamp, 12);
            assert_eq!(request.data.payload, "0x0102");
        }
        other => panic!("expected a decoded outcome, got {:?}", other),
    }
}

#[test]
fn an_unexpected_status_is_a_protocol_error() {
    let responses = vec![
        FinishResponse { status: 202, envelope: None },
        FinishResponse { status: 500, envelope: None },
        FinishResponse { status: 200, envelope: Some(advance_envelope("0x", 0, 0)) },
    ];

    let (issued, outcome) = run_finish_loop(&responses);
    assert_eq!(issued, 2);
    assert_eq!(outcome, FinishLoopOutcome::Protocol(500));
}

#[test]
fn nothing_but_accepted_exhausts_the_responses() {
    let responses = vec![
        FinishResponse { status: 202, envelope: None },
        FinishResponse { status: 202, envelope: None },
    ];

    let (issued, outcome) = run_finish_loop(&responses);
    assert_eq!(issued, 2);
    assert_eq!(outcome, FinishLoopOutcome::Exhausted);
}

#[test]
fn discriminants_decode_through_an_exhaustive_match() {
    assert_eq!(parse_request_type("advance_state").unwrap(), RequestType::AdvanceState);
    assert_eq!(parse_request_type("inspect_state").unwrap(), RequestType::InspectState);
    assert_eq!(
        parse_request_type("sleep_state").unwrap_err(),
        EnvelopeError::UnknownRequestType
    );
    assert_eq!(parse_request_type("").unwrap_err(), EnvelopeError::UnknownRequestType);
}

#[test]
fn an_unknown_discriminant_is_rejected_not_defaulted() {
    let mut envelope = advance_envelope("0x00", 1, 1);
    envelope.request_type = "advance".to_owned();
    assert_eq!(decode_envelope(&envelope).unwrap_err(), EnvelopeError::UnknownRequestType);
}

#[test]
fn a_malformed_hex_payload_is_a_decode_error() {
    let envelope = advance_envelope("0x01gg", 1, 1);
    assert_eq!(decode_envelope(&envelope).unwrap_err(), EnvelopeError::MalformedPayload);
}

#[test]
fn an_inspect_envelope_decodes() {
    let mut envelope = advance_envelope("0xff", 2, 9);
    envelope.request_type = "inspect_state".to_owned();
    let request = decode_envelope(&envelope).unwrap();
    assert_eq!(request.request_type, RequestType::InspectState);
    assert_eq!(request.data.payload, "0xff");
}

#[test]
fn the_first_request_of_the_session_is_the_handshake() {
    let mut session = HttpSession::new();
    assert_eq!(session.rollups_address, None);
    assert!(session.accept);

    let request = decode_envelope(&advance_envelope("0x", 0, 0)).unwrap();
    let forwarded = session.on_request(request);
    assert!(forwarded.is_none());
    assert_eq!(session.rollups_address.as_deref(), Some("0x00aa"));
}

#[test]
fn later_requests_are_forwarded_unchanged() {
    let mut session = HttpSession::new();
    let request = decode_envelope(&advance_envelope("0x0102", 0, 1)).unwrap();
    let forwarded = session.on_request(request.clone()).unwrap();
    assert_eq!(forwarded, request);
    assert_eq!(session.rollups_address, None);
}

#[test]
fn the_handler_outcome_becomes_the_next_finish_status() {
    let mut session = HttpSession::new();
    session.set_outcome(false);
    assert!(!session.accept);
    session.set_outcome(true);
    assert!(session.accept);
}

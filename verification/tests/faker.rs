use cartesi_rollups::faker::Data;
use cartesi_rollups::faker::FakeCartesiMachine;
use cartesi_rollups::faker::FakeCartesiMachineError;
use cartesi_rollups::rollups::run;
use cartesi_rollups::rollups::MachineIo;
use cartesi_rollups::rollups::RollupsMetadata;
use cartesi_rollups::rollups::RollupsRequest;
use std::collections::VecDeque;

fn advance_request(payload: Vec<u8>) -> RollupsRequest {
    RollupsRequest::AdvanceState {
        metadata: RollupsMetadata {
            msg_sender: "test".to_owned(),
            epoch_index: 0,
            input_index: 0,
            block_number: 0,
            timestamp: 0,
        },
        payload,
    }
}

#[test]
fn test_advancing_state_echoes_notice() {
    let request = advance_request(vec![1, 2, 3]);
    let mut machine = FakeCartesiMachine::new(VecDeque::from([request]), Data::default());

    run(&mut machine, 10).unwrap_err();

    assert_eq!(machine.data.notices, vec![vec![1, 2, 3]]);
    assert!(machine.data.vouchers.is_empty());
    assert!(machine.data.reports.is_empty());
    assert!(machine.data.exceptions.is_empty());
}

#[test]
fn test_inspecting_state_echoes_report() {
    let request = RollupsRequest::InspectState { payload: vec![1, 2, 3] };
    let mut machine = FakeCartesiMachine::new(VecDeque::from([request]), Data::default());

    run(&mut machine, 10).unwrap_err();

    assert_eq!(machine.data.reports, vec![vec![1, 2, 3]]);
    assert!(machine.data.notices.is_empty());
    assert!(machine.data.vouchers.is_empty());
    assert!(machine.data.exceptions.is_empty());
}

#[test]
fn draining_past_the_seeded_requests_is_the_queue_exhausted_error() {
    let request = RollupsRequest::InspectState { payload: vec![] };
    let mut machine = FakeCartesiMachine::new(VecDeque::from([request]), Data::default());

    assert!(machine.submit().is_ok());
    assert_eq!(machine.submit(), Err(FakeCartesiMachineError::EmptyRequests));
    assert_eq!(machine.submit(), Err(FakeCartesiMachineError::EmptyRequests));
}

#[test]
fn submitting_on_an_empty_queue_leaves_the_logs_alone() {
    let mut machine = FakeCartesiMachine::new(VecDeque::new(), Data::default());

    machine.write_notice(&[9]).unwrap();
    assert_eq!(machine.submit(), Err(FakeCartesiMachineError::EmptyRequests));
    assert_eq!(machine.data.notices, vec![vec![9]]);
}

#[test]
fn logs_hold_exactly_the_writes_in_issuance_order() {
    let mut machine = FakeCartesiMachine::new(VecDeque::new(), Data::default());
    let address = [7u8; 20];

    machine.write_notice(&[1]).unwrap();
    machine.write_voucher(&address, &[2, 2]).unwrap();
    machine.write_report(&[3, 3, 3]).unwrap();
    machine.write_notice(&[4]).unwrap();
    machine.throw_exception(&[5]).unwrap();

    let expected = Data {
        notices: vec![vec![1], vec![4]],
        vouchers: vec![(address.to_vec(), vec![2, 2])],
        reports: vec![vec![3, 3, 3]],
        exceptions: vec![vec![5]],
    };
    assert_eq!(machine.data, expected);
}

#[test]
fn write_indices_are_the_log_lengths() {
    let mut machine = FakeCartesiMachine::new(VecDeque::new(), Data::default());
    let address = [0u8; 20];

    assert_eq!(machine.write_notice(&[1]).unwrap(), 1);
    assert_eq!(machine.write_notice(&[2]).unwrap(), 2);
    assert_eq!(machine.write_voucher(&address, &[3]).unwrap(), 1);
    assert_eq!(machine.write_notice(&[4]).unwrap(), 3);
}

#[test]
fn submit_pops_requests_in_seeded_order() {
    let first = RollupsRequest::InspectState { payload: vec![1] };
    let second = RollupsRequest::InspectState { payload: vec![2] };
    let mut machine =
        FakeCartesiMachine::new(VecDeque::from([first.clone(), second.clone()]), Data::default());

    assert_eq!(machine.submit().unwrap(), first);
    assert_eq!(machine.submit().unwrap(), second);
    assert_eq!(machine.submit(), Err(FakeCartesiMachineError::EmptyRequests));
}

#[test]
fn error_message_names_the_exhausted_queue() {
    assert_eq!(
        FakeCartesiMachineError::EmptyRequests.message(),
        "Reached end of request queue."
    );
}

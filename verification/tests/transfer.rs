use stctrl::funds::{
    funds_send_start, start_transfer, transfer_step, FundsError, Receipt, TransferAction,
    TransferEvent, TransferState, TransferSummary,
};
use stctrl::keys::{PublicKey, PUBLIC_KEY_LEN};
use stctrl::route::{FriendsRoute, RouteWithCapacity};
use stctrl::uid::{gen_uid, UID_LEN};

fn key(byte: u8) -> PublicKey {
    PublicKey { bytes: vec![byte; PUBLIC_KEY_LEN] }
}

fn route_of(bytes: &[u8]) -> FriendsRoute {
    let mut public_keys = Vec::new();
    for b in bytes {
        public_keys.push(key(*b));
    }
    FriendsRoute { public_keys }
}

fn candidate(bytes: &[u8], capacity: u128) -> RouteWithCapacity {
    RouteWithCapacity { route: route_of(bytes), capacity }
}

fn report_ok(local: u8) -> TransferEvent {
    TransferEvent::ReportFetched {
        local_public_key: key(local),
        has_send_funds: true,
        has_routes: true,
    }
}

#[test]
fn successful_transfer_reports_amount_and_fee() {
    // One candidate [A,B,C] with capacity 100, amount 50: total 51 <= 100,
    // so the transfer runs to completion with fee 1.
    let (state, action) = start_transfer(key(9), 50);
    assert_eq!(action, TransferAction::FetchReport);

    let (state, action) = transfer_step(state, report_ok(1));
    match &action {
        TransferAction::RequestRoutes { amount, source, destination } => {
            assert_eq!(*amount, 50);
            assert_eq!(*source, key(1));
            assert_eq!(*destination, key(9));
        },
        other => panic!("unexpected action: {:?}", other),
    }

    let routes = vec![candidate(&[1, 2, 3], 100)];
    let (state, action) = transfer_step(state, TransferEvent::RoutesReceived { routes });
    match &action {
        TransferAction::RequestSendFunds { route, invoice_id, amount, .. } => {
            assert_eq!(*route, route_of(&[1, 2, 3]));
            assert_eq!(invoice_id.bytes, vec![0u8; 32]);
            assert_eq!(*amount, 50);
        },
        other => panic!("unexpected action: {:?}", other),
    }

    let receipt = Receipt { bytes: vec![7, 7, 7] };
    let (state, action) = transfer_step(state, TransferEvent::SendFundsSucceeded { receipt });
    assert!(matches!(action, TransferAction::AckReceipt { .. }));

    let (state, action) = transfer_step(state, TransferEvent::AckSucceeded);
    assert_eq!(action, TransferAction::Finish);
    assert_eq!(
        state,
        TransferState::Done { result: Ok(TransferSummary { amount: 50, fees: 1 }) },
    );
}

#[test]
fn ack_uses_the_request_id_of_the_send() {
    let (state, _) = start_transfer(key(9), 50);
    let (state, action) = transfer_step(state, report_ok(1));
    assert!(matches!(action, TransferAction::RequestRoutes { .. }));
    let routes = vec![candidate(&[1, 2, 3], 100)];
    let (state, action) = transfer_step(state, TransferEvent::RoutesReceived { routes });
    let send_request_id = match action {
        TransferAction::RequestSendFunds { request_id, .. } => request_id,
        other => panic!("unexpected action: {:?}", other),
    };
    let receipt = Receipt { bytes: vec![1] };
    let (_, action) = transfer_step(state, TransferEvent::SendFundsSucceeded { receipt });
    match action {
        TransferAction::AckReceipt { request_id, .. } => assert_eq!(request_id, send_request_id),
        other => panic!("unexpected action: {:?}", other),
    }
}

#[test]
fn insufficient_capacity_aborts_before_any_send() {
    // One candidate [A,D] with capacity 40, amount 50: 50 > 40, so the
    // transfer fails with no-suitable-route and asks for nothing more.
    let (state, _) = start_transfer(key(4), 50);
    let (state, _) = transfer_step(state, report_ok(1));
    let routes = vec![candidate(&[1, 4], 40)];
    let (state, action) = transfer_step(state, TransferEvent::RoutesReceived { routes });
    assert_eq!(action, TransferAction::Finish);
    assert_eq!(state, TransferState::Done { result: Err(FundsError::NoSuitableRoute) });
}

#[test]
fn invalid_candidate_is_skipped_not_fatal() {
    // A one-entry route is invalid and skipped; the direct route behind
    // it carries 10 exactly (fee 0, 10 <= 10).
    let (state, _) = start_transfer(key(2), 10);
    let (state, _) = transfer_step(state, report_ok(1));
    let routes = vec![candidate(&[1], 100), candidate(&[1, 2], 10)];
    let (state, action) = transfer_step(state, TransferEvent::RoutesReceived { routes });
    match &action {
        TransferAction::RequestSendFunds { route, amount, .. } => {
            assert_eq!(*route, route_of(&[1, 2]));
            assert_eq!(*amount, 10);
        },
        other => panic!("unexpected action: {:?}", other),
    }
    match state {
        TransferState::AwaitReceipt { fees, amount, .. } => {
            assert_eq!(fees, 0);
            assert_eq!(amount, 10);
        },
        other => panic!("unexpected state: {:?}", other),
    }
}

#[test]
fn failed_ack_is_ambiguous_not_a_failed_send() {
    // The send succeeds but the acknowledgment fails: the outcome must be
    // the distinct ambiguous-completion error, not a send failure and not
    // success.
    let (state, _) = start_transfer(key(9), 50);
    let (state, _) = transfer_step(state, report_ok(1));
    let routes = vec![candidate(&[1, 2, 3], 100)];
    let (state, _) = transfer_step(state, TransferEvent::RoutesReceived { routes });
    let receipt = Receipt { bytes: vec![2] };
    let (state, _) = transfer_step(state, TransferEvent::SendFundsSucceeded { receipt });
    let (state, action) = transfer_step(state, TransferEvent::AckFailed);
    assert_eq!(action, TransferAction::Finish);
    let result = match state {
        TransferState::Done { result } => result,
        other => panic!("unexpected state: {:?}", other),
    };
    assert_eq!(result, Err(FundsError::ReceiptAckError));
    assert_ne!(result, Err(FundsError::SendFundsError));
    assert!(result.is_err());
}

#[test]
fn report_failure_aborts() {
    let (state, _) = start_transfer(key(9), 50);
    let (state, action) = transfer_step(state, TransferEvent::ReportFailed);
    assert_eq!(action, TransferAction::Finish);
    assert_eq!(state, TransferState::Done { result: Err(FundsError::GetReportError) });
}

#[test]
fn missing_send_funds_permission_aborts() {
    let (state, _) = start_transfer(key(9), 50);
    let event = TransferEvent::ReportFetched {
        local_public_key: key(1),
        has_send_funds: false,
        has_routes: true,
    };
    let (state, _) = transfer_step(state, event);
    assert_eq!(state, TransferState::Done { result: Err(FundsError::NoFundsPermissions) });
}

#[test]
fn missing_routes_permission_aborts() {
    let (state, _) = start_transfer(key(9), 50);
    let event = TransferEvent::ReportFetched {
        local_public_key: key(1),
        has_send_funds: true,
        has_routes: false,
    };
    let (state, _) = transfer_step(state, event);
    assert_eq!(state, TransferState::Done { result: Err(FundsError::NoRoutesPermissions) });
}

#[test]
fn route_query_failure_aborts() {
    let (state, _) = start_transfer(key(9), 50);
    let (state, _) = transfer_step(state, report_ok(1));
    let (state, _) = transfer_step(state, TransferEvent::RoutesFailed);
    assert_eq!(state, TransferState::Done { result: Err(FundsError::AppRoutesError) });
}

#[test]
fn send_failure_aborts() {
    let (state, _) = start_transfer(key(9), 50);
    let (state, _) = transfer_step(state, report_ok(1));
    let routes = vec![candidate(&[1, 2, 3], 100)];
    let (state, _) = transfer_step(state, TransferEvent::RoutesReceived { routes });
    let (state, _) = transfer_step(state, TransferEvent::SendFundsFailed);
    assert_eq!(state, TransferState::Done { result: Err(FundsError::SendFundsError) });
}

#[test]
fn request_ids_do_not_collide() {
    // Two transfer attempts with the same destination and amount draw
    // distinct request identifiers.
    let first = gen_uid();
    let second = gen_uid();
    assert_eq!(first.bytes.len(), UID_LEN);
    assert_ne!(first, second);
}

#[test]
fn send_command_opens_a_transfer() {
    let destination: Vec<u8> = b"00".iter().cycle().take(64).cloned().collect();
    let amount = b"50".to_vec();
    let (state, action) = funds_send_start(&destination, &amount).unwrap();
    assert_eq!(action, TransferAction::FetchReport);
    match state {
        TransferState::AwaitReport { destination, amount } => {
            assert_eq!(destination.bytes, vec![0u8; 32]);
            assert_eq!(amount, 50);
        },
        other => panic!("unexpected state: {:?}", other),
    }
}

#[test]
fn send_command_rejects_bad_amount_first() {
    // Both arguments are malformed; the amount is parsed first.
    let destination = b"zz".to_vec();
    let amount = b"5x".to_vec();
    let r = funds_send_start(&destination, &amount);
    assert!(matches!(r, Err(FundsError::ParseAmountError)));
}

#[test]
fn send_command_rejects_bad_destination() {
    let destination = b"zz".to_vec();
    let amount = b"50".to_vec();
    let r = funds_send_start(&destination, &amount);
    assert!(matches!(r, Err(FundsError::InvalidDestination)));
}

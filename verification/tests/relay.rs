use kylin_oracle::call::Call;
use kylin_oracle::event::{DispatchError, Event, SendError};
use kylin_oracle::fetch::FetchError;
use kylin_oracle::origin::{AccountId, Origin, ParaId};
use kylin_oracle::pallet::Pallet;
use kylin_oracle::relay::{CrossDomainMessage, Direction, PRICE_URL, REQUIRE_WEIGHT_AT_MOST};

const SIBLING: ParaId = ParaId(2000);

fn alice() -> Origin {
    Origin::Signed(AccountId([1u8; 32]))
}

fn oracle() -> Pallet {
    Pallet::new(SIBLING)
}

#[test]
fn the_constants_of_a_message() {
    assert_eq!(REQUIRE_WEIGHT_AT_MOST, 1_000u64);
    assert_eq!(PRICE_URL, "https://min-api.cryptocompare.com/data/price?fsym=BTC&tsyms=USD");
}

#[test]
fn a_request_from_neither_a_sibling_nor_a_local_account_is_rejected() {
    for origin in [Origin::Root, Origin::Unsigned, Origin::Relay, Origin::Other] {
        let pallet = oracle();
        let res = pallet.request_offchain_data_cross_chain(origin, 1, b"q".to_vec());
        assert!(matches!(res, Err(DispatchError::BadOrigin)));
        assert_eq!(pallet.data_id(), 10_000_000);
        assert!(pallet.iterate_unfulfilled().is_empty());
    }
}

#[test]
fn a_request_from_a_sibling_is_rejected() {
    for para in [SIBLING, ParaId(1), ParaId(u32::MAX)] {
        let res = oracle().request_offchain_data_cross_chain(
            Origin::SiblingParachain(para),
            1,
            b"q".to_vec(),
        );
        assert!(matches!(res, Err(DispatchError::BadOrigin)));
    }
}

#[test]
fn an_accepted_request_is_announced_and_addressed_to_the_sibling() {
    let (event, pending) =
        oracle().request_offchain_data_cross_chain(alice(), 1, b"q".to_vec()).unwrap();
    assert_eq!(event, Event::RequestedOffchainDataViaXCM(SIBLING, 1, b"q".to_vec()));
    let message = pending.message();
    assert_eq!(
        message,
        CrossDomainMessage {
            dest: SIBLING,
            direction: Direction::Request,
            sequence: 1,
            payload: b"q".to_vec(),
        }
    );
    assert_eq!(
        message.call(),
        Call::fetch_offchain_data_cross_chain { seq: 1, data: b"q".to_vec() }
    );
}

#[test]
fn a_request_that_the_transport_takes_reports_nothing_more() {
    let (_, pending) =
        oracle().request_offchain_data_cross_chain(alice(), 1, b"q".to_vec()).unwrap();
    assert_eq!(pending.sent(Ok(())), None);
}

#[test]
fn a_transport_error_on_a_request_gives_exactly_one_error_event() {
    let pallet = oracle();
    let (_, pending) = pallet.request_offchain_data_cross_chain(alice(), 1, b"q".to_vec()).unwrap();
    let event = pending.sent(Err(SendError::Transport("queue full")));
    assert_eq!(
        event,
        Some(Event::ErrorRequestingData(
            SendError::Transport("queue full"),
            SIBLING,
            1,
            b"q".to_vec()
        ))
    );
    assert_eq!(pallet.data_id(), 10_000_000);
    assert!(pallet.iterate_unfulfilled().is_empty());
}

#[test]
fn every_send_error_is_named_in_the_requesters_event() {
    for error in [
        SendError::NotApplicable,
        SendError::Transport("down"),
        SendError::Unroutable,
        SendError::DestinationUnsupported,
        SendError::ExceedsMaxMessageSize,
        SendError::MissingArgument,
        SendError::Fees,
    ] {
        let (_, pending) =
            oracle().request_offchain_data_cross_chain(alice(), 9, b"abc".to_vec()).unwrap();
        assert_eq!(
            pending.sent(Err(error)),
            Some(Event::ErrorRequestingData(error, SIBLING, 9, b"abc".to_vec()))
        );
    }
}

#[test]
fn a_fetch_for_a_spoofed_origin_is_rejected_before_any_fetch() {
    for origin in [Origin::Root, Origin::Unsigned, Origin::Relay, Origin::Other, alice()] {
        let pallet = oracle();
        let res = pallet.fetch_offchain_data_cross_chain(origin, 7, b"x".to_vec());
        assert!(matches!(res, Err(DispatchError::BadOrigin)));
        assert_eq!(pallet.data_id(), 10_000_000);
    }
}

#[test]
fn a_sibling_gets_the_fetched_data_back() {
    let from = ParaId(3000);
    let pending = oracle()
        .fetch_offchain_data_cross_chain(Origin::SiblingParachain(from), 7, b"x".to_vec())
        .unwrap();
    assert_eq!(pending.url(), PRICE_URL);
    let reply = pending.fetched(Ok(b"{\"USD\":61234.5}".to_vec()));
    let message = reply.message();
    assert_eq!(
        message,
        CrossDomainMessage {
            dest: from,
            direction: Direction::Reply,
            sequence: 7,
            payload: b"{\"USD\":61234.5}".to_vec(),
        }
    );
    assert_eq!(
        message.call(),
        Call::request_offchain_data_cross_chain { seq: 7, data: b"{\"USD\":61234.5}".to_vec() }
    );
    assert_eq!(reply.sent(Ok(())), Event::FetchedOffchainDataViaXCM(from, 7, b"x".to_vec()));
}

#[test]
fn a_failed_fetch_is_answered_with_the_failure_marker() {
    for error in [
        FetchError::DeadlineExceeded,
        FetchError::Transport,
        FetchError::BadStatus,
        FetchError::InvalidEncoding,
    ] {
        let pending = oracle()
            .fetch_offchain_data_cross_chain(Origin::SiblingParachain(SIBLING), 7, b"x".to_vec())
            .unwrap();
        let reply = pending.fetched(Err(error));
        let message = reply.message();
        assert_eq!(message.payload, b"Failed fetch data".to_vec());
        assert_eq!(message.direction, Direction::Reply);
        assert_eq!(message.dest, SIBLING);
        assert_eq!(message.sequence, 7);
        assert_eq!(reply.sent(Ok(())), Event::FetchedOffchainDataViaXCM(SIBLING, 7, b"x".to_vec()));
    }
}

#[test]
fn a_reply_that_the_transport_refuses_is_reported() {
    let pending = oracle()
        .fetch_offchain_data_cross_chain(Origin::SiblingParachain(SIBLING), 7, b"x".to_vec())
        .unwrap();
    let reply = pending.fetched(Ok(b"42".to_vec()));
    assert_eq!(
        reply.sent(Err(SendError::Unroutable)),
        Event::ErrorFetchingData(SendError::Unroutable, SIBLING, 7, b"x".to_vec())
    );
}

#[test]
fn a_reply_does_not_set_off_another_request() {
    let responder = Pallet::new(ParaId(1000));
    let requester = Pallet::new(SIBLING);
    let (_, pending) =
        requester.request_offchain_data_cross_chain(alice(), 5, b"q".to_vec()).unwrap();
    let request = pending.message().call();
    let Call::fetch_offchain_data_cross_chain { seq, data } = request else {
        panic!("a request carries a fetch");
    };
    let reply = responder
        .fetch_offchain_data_cross_chain(Origin::SiblingParachain(ParaId(1000)), seq, data)
        .unwrap()
        .fetched(Ok(b"42".to_vec()))
        .message()
        .call();
    let Call::request_offchain_data_cross_chain { seq, data } = reply else {
        panic!("a reply carries the answer");
    };
    assert_eq!((seq, data.clone()), (5, b"42".to_vec()));
    let res =
        requester.request_offchain_data_cross_chain(Origin::SiblingParachain(SIBLING), seq, data);
    assert!(matches!(res, Err(DispatchError::BadOrigin)));
}

#[test]
fn equal_sequence_numbers_are_not_told_apart() {
    let pallet = oracle();
    let (first, _) = pallet.request_offchain_data_cross_chain(alice(), 1, b"q".to_vec()).unwrap();
    let (second, _) = pallet.request_offchain_data_cross_chain(alice(), 1, b"q".to_vec()).unwrap();
    assert_eq!(first, second);
}

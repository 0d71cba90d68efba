use kylin_oracle::event::{DispatchError, Error, Event};
use kylin_oracle::origin::{AccountId, Origin, ParaId};
use kylin_oracle::pallet::{DataInfo, InitialDataId, Pallet};

const FIRST: u64 = 10_000_000;

fn alice() -> Origin {
    Origin::Signed(AccountId([1u8; 32]))
}

fn oracle() -> Pallet {
    Pallet::new(ParaId(2000))
}

#[test]
fn initial_data_id_is_ten_million() {
    assert_eq!(InitialDataId(), 10_000_000u64);
    assert_eq!(oracle().data_id(), 10_000_000u64);
}

#[test]
fn a_fresh_oracle_has_no_requests() {
    let pallet = oracle();
    assert!(pallet.iterate_unfulfilled().is_empty());
    assert_eq!(pallet.sibling(), ParaId(2000));
}

#[test]
fn an_unknown_index_reads_as_the_empty_record() {
    let pallet = oracle();
    let info = pallet.requested_offchain_data(42);
    assert_eq!(info, DataInfo::default());
    assert!(info.url.is_empty());
    assert!(info.data.is_empty());
}

#[test]
fn enqueue_returns_the_counter_and_advances_it() {
    let mut pallet = oracle();
    let id = pallet.add_fetch_data_request(Origin::Unsigned, b"https://example.test/a".to_vec());
    assert_eq!(id, Ok(FIRST));
    assert_eq!(pallet.data_id(), FIRST + 1);
    let info = pallet.requested_offchain_data(FIRST);
    assert_eq!(info.url, b"https://example.test/a".to_vec());
    assert_eq!(info.data, Vec::<u8>::new());
}

#[test]
fn enqueue_does_not_look_at_the_origin() {
    let origins = [
        Origin::Root,
        alice(),
        Origin::Unsigned,
        Origin::Relay,
        Origin::SiblingParachain(ParaId(7)),
        Origin::Other,
    ];
    let mut pallet = oracle();
    let mut expected = FIRST;
    for origin in origins {
        assert_eq!(pallet.add_fetch_data_request(origin, vec![b'u']), Ok(expected));
        expected += 1;
    }
}

#[test]
fn enqueued_ids_rise_strictly_and_never_repeat() {
    let mut pallet = oracle();
    let mut ids = Vec::new();
    for n in 0..50u8 {
        ids.push(pallet.add_fetch_data_request(Origin::Root, vec![n]).unwrap());
    }
    for pair in ids.windows(2) {
        assert!(pair[0] < pair[1]);
    }
    assert_eq!(ids[0], FIRST);
    assert_eq!(ids[49], FIRST + 49);
}

#[test]
fn enqueued_ids_rise_strictly_across_other_calls() {
    let mut pallet = oracle();
    let a = pallet.add_fetch_data_request(Origin::Root, vec![1]).unwrap();
    pallet.submit_request_data(alice(), a, b"x".to_vec()).unwrap();
    pallet.cause_error(alice()).unwrap();
    assert!(pallet.cause_error(Origin::Root).is_err());
    pallet.submit_request_data(alice(), a + 5, b"y".to_vec()).unwrap();
    let b = pallet.add_fetch_data_request(Origin::Root, vec![2]).unwrap();
    let c = pallet.add_fetch_data_request(Origin::Root, vec![3]).unwrap();
    assert_eq!((a, b, c), (FIRST, FIRST + 2, FIRST + 3));
}

#[test]
fn enqueue_fails_on_counter_overflow_and_changes_nothing() {
    let mut pallet = Pallet::starting_at(ParaId(1), u64::MAX);
    let res = pallet.add_fetch_data_request(Origin::Root, b"u".to_vec());
    assert_eq!(res, Err(DispatchError::Module(Error::StorageOverflow)));
    assert_eq!(pallet.data_id(), u64::MAX);
    assert_eq!(pallet.requested_offchain_data(u64::MAX), DataInfo::default());
    assert!(pallet.iterate_unfulfilled().is_empty());
}

#[test]
fn enqueue_uses_the_last_index_before_overflow() {
    let mut pallet = Pallet::starting_at(ParaId(1), u64::MAX - 1);
    assert_eq!(pallet.add_fetch_data_request(Origin::Root, b"u".to_vec()), Ok(u64::MAX - 1));
    assert_eq!(pallet.data_id(), u64::MAX);
    assert_eq!(
        pallet.add_fetch_data_request(Origin::Root, b"v".to_vec()),
        Err(DispatchError::Module(Error::StorageOverflow))
    );
}

#[test]
fn fulfill_then_read_returns_the_payload() {
    let mut pallet = oracle();
    let id = pallet.add_fetch_data_request(Origin::Root, b"https://example.test/a".to_vec()).unwrap();
    let event = pallet.submit_request_data(alice(), id, b"42".to_vec());
    assert_eq!(event, Ok(Event::FetchedOffchainData(id, AccountId([1u8; 32]))));
    let info = pallet.requested_offchain_data(id);
    assert_eq!(info.data, b"42".to_vec());
    assert_eq!(info.url, b"https://example.test/a".to_vec());
    assert_eq!(pallet.data_id(), id + 1);
}

#[test]
fn the_later_of_two_fulfills_wins() {
    let mut pallet = oracle();
    let id = pallet.add_fetch_data_request(Origin::Root, b"u".to_vec()).unwrap();
    pallet.submit_request_data(alice(), id, b"p1".to_vec()).unwrap();
    pallet.submit_request_data(Origin::Signed(AccountId([2u8; 32])), id, b"p2".to_vec()).unwrap();
    assert_eq!(pallet.requested_offchain_data(id).data, b"p2".to_vec());
    assert_eq!(pallet.requested_offchain_data(id).url, b"u".to_vec());
}

#[test]
fn fulfilling_the_same_payload_twice_is_the_same_as_once() {
    let mut once = oracle();
    let mut twice = oracle();
    let id = once.add_fetch_data_request(Origin::Root, b"u".to_vec()).unwrap();
    assert_eq!(twice.add_fetch_data_request(Origin::Root, b"u".to_vec()), Ok(id));
    once.submit_request_data(alice(), id, b"42".to_vec()).unwrap();
    twice.submit_request_data(alice(), id, b"42".to_vec()).unwrap();
    twice.submit_request_data(alice(), id, b"42".to_vec()).unwrap();
    assert_eq!(once.requested_offchain_data(id), twice.requested_offchain_data(id));
    assert_eq!(once.data_id(), twice.data_id());
    assert_eq!(once.iterate_unfulfilled(), twice.iterate_unfulfilled());
}

#[test]
fn fulfilling_an_unknown_index_creates_a_record_without_url() {
    let mut pallet = oracle();
    pallet.submit_request_data(alice(), 5, b"late".to_vec()).unwrap();
    let info = pallet.requested_offchain_data(5);
    assert_eq!(info.url, Vec::<u8>::new());
    assert_eq!(info.data, b"late".to_vec());
    assert_eq!(pallet.data_id(), FIRST);
}

#[test]
fn fulfill_is_refused_unless_signed_and_changes_nothing() {
    let origins =
        [
        Origin::Root,
        Origin::Unsigned,
        Origin::Relay,
        Origin::Other,
        Origin::SiblingParachain(ParaId(2000)),
    ];
    for origin in origins {
        let mut pallet = oracle();
        let id = pallet.add_fetch_data_request(Origin::Root, b"u".to_vec()).unwrap();
        let res = pallet.submit_request_data(origin, id, b"42".to_vec());
        assert_eq!(res, Err(DispatchError::BadOrigin));
        assert_eq!(pallet.requested_offchain_data(id).data, Vec::<u8>::new());
        assert_eq!(pallet.iterate_unfulfilled(), vec![(id, b"u".to_vec())]);
        assert_eq!(pallet.data_id(), id + 1);
    }
}

#[test]
fn iterate_unfulfilled_never_lists_a_record_with_a_payload() {
    let mut pallet = oracle();
    let a = pallet.add_fetch_data_request(Origin::Root, b"a".to_vec()).unwrap();
    let b = pallet.add_fetch_data_request(Origin::Root, b"b".to_vec()).unwrap();
    let c = pallet.add_fetch_data_request(Origin::Root, b"c".to_vec()).unwrap();
    pallet.submit_request_data(alice(), b, b"done".to_vec()).unwrap();
    let mut open = pallet.iterate_unfulfilled();
    open.sort();
    assert_eq!(open, vec![(a, b"a".to_vec()), (c, b"c".to_vec())]);
    for (id, _) in pallet.iterate_unfulfilled() {
        assert!(pallet.requested_offchain_data(id).data.is_empty());
    }
}

#[test]
fn iterate_unfulfilled_lists_each_open_request_once() {
    let mut pallet = oracle();
    for n in 0..20u8 {
        pallet.add_fetch_data_request(Origin::Root, vec![n]).unwrap();
    }
    let mut ids: Vec<u64> = pallet.iterate_unfulfilled().into_iter().map(|(id, _)| id).collect();
    ids.sort();
    let expected: Vec<u64> = (FIRST..FIRST + 20).collect();
    assert_eq!(ids, expected);
}

#[test]
fn a_record_fulfilled_with_nothing_stays_open() {
    let mut pallet = oracle();
    let id = pallet.add_fetch_data_request(Origin::Root, b"u".to_vec()).unwrap();
    pallet.submit_request_data(alice(), id, Vec::new()).unwrap();
    assert_eq!(pallet.iterate_unfulfilled(), vec![(id, b"u".to_vec())]);
}

#[test]
fn a_fulfill_can_reopen_nothing_but_an_empty_one() {
    let mut pallet = oracle();
    let id = pallet.add_fetch_data_request(Origin::Root, b"u".to_vec()).unwrap();
    pallet.submit_request_data(alice(), id, b"42".to_vec()).unwrap();
    assert!(pallet.iterate_unfulfilled().is_empty());
    pallet.submit_request_data(alice(), id, Vec::new()).unwrap();
    assert_eq!(pallet.iterate_unfulfilled(), vec![(id, b"u".to_vec())]);
}

#[test]
fn enqueue_replaces_what_a_store_left_at_its_index() {
    let mut pallet = oracle();
    pallet.submit_request_data(alice(), FIRST, b"early".to_vec()).unwrap();
    assert!(pallet.iterate_unfulfilled().is_empty());
    assert_eq!(pallet.add_fetch_data_request(Origin::Root, b"u".to_vec()), Ok(FIRST));
    let info = pallet.requested_offchain_data(FIRST);
    assert_eq!(info.url, b"u".to_vec());
    assert!(info.data.is_empty());
    assert_eq!(pallet.iterate_unfulfilled(), vec![(FIRST, b"u".to_vec())]);
}

#[test]
fn cause_error_advances_the_counter() {
    let mut pallet = oracle();
    assert_eq!(pallet.cause_error(alice()), Ok(()));
    assert_eq!(pallet.data_id(), FIRST + 1);
    assert!(pallet.iterate_unfulfilled().is_empty());
    assert_eq!(pallet.requested_offchain_data(FIRST), DataInfo::default());
}

#[test]
fn cause_error_is_refused_unless_signed() {
    let origins =
        [
        Origin::Root,
        Origin::Unsigned,
        Origin::Relay,
        Origin::Other,
        Origin::SiblingParachain(ParaId(1)),
    ];
    for origin in origins {
        let mut pallet = oracle();
        assert_eq!(pallet.cause_error(origin), Err(DispatchError::BadOrigin));
        assert_eq!(pallet.data_id(), FIRST);
    }
}

#[test]
fn cause_error_reports_storage_overflow() {
    let mut pallet = Pallet::starting_at(ParaId(1), u64::MAX);
    assert_eq!(pallet.cause_error(alice()), Err(DispatchError::Module(Error::StorageOverflow)));
    assert_eq!(pallet.data_id(), u64::MAX);
    assert_eq!(pallet.cause_error(Origin::Root), Err(DispatchError::BadOrigin));
}

#[test]
fn a_restored_oracle_holds_the_given_records() {
    let entries = vec![
        (3, DataInfo { url: b"a".to_vec(), data: Vec::new() }),
        (9, DataInfo { url: b"b".to_vec(), data: b"42".to_vec() }),
        (1, DataInfo { url: b"c".to_vec(), data: Vec::new() }),
    ];
    let pallet = Pallet::restore(ParaId(5), 77, entries.clone());
    assert_eq!(pallet.data_id(), 77);
    assert_eq!(pallet.sibling(), ParaId(5));
    for (index, info) in entries {
        assert_eq!(pallet.requested_offchain_data(index), info);
    }
    assert_eq!(pallet.requested_offchain_data(2), DataInfo::default());
    let mut open = pallet.iterate_unfulfilled();
    open.sort();
    assert_eq!(open, vec![(1, b"c".to_vec()), (3, b"a".to_vec())]);
}

#[test]
fn the_later_of_two_restored_entries_for_one_index_stays() {
    let entries = vec![
        (3, DataInfo { url: b"first".to_vec(), data: b"x".to_vec() }),
        (4, DataInfo { url: b"other".to_vec(), data: Vec::new() }),
        (3, DataInfo { url: b"second".to_vec(), data: Vec::new() }),
    ];
    let pallet = Pallet::restore(ParaId(5), 0, entries);
    assert_eq!(pallet.requested_offchain_data(3).url, b"second".to_vec());
    assert!(pallet.requested_offchain_data(3).data.is_empty());
    assert_eq!(pallet.iterate_unfulfilled().len(), 2);
}

#[test]
fn a_restored_oracle_goes_on_from_its_counter() {
    let mut pallet = Pallet::restore(ParaId(5), 41, Vec::new());
    assert!(pallet.iterate_unfulfilled().is_empty());
    assert_eq!(pallet.add_fetch_data_request(Origin::Root, b"u".to_vec()), Ok(41));
    assert_eq!(pallet.data_id(), 42);
}

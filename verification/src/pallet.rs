//! The ledger of requested data and the dispatchables that change it.

use vstd::prelude::*;
use std::collections::BTreeMap;
use vstd::std_specs::iter::IteratorSpec;
use crate::event::{DispatchError, Error, Event, EventView};
use crate::origin::{ensure_signed, Origin, ParaId};

verus! {

/// The index that the first data request gets on a fresh chain.
#[allow(non_snake_case)]
pub fn InitialDataId() -> (id: u64)
    ensures
        id == 10_000_000,
{
    10_000_000
}

/// One requested piece of off-chain data: where to fetch it, and what was
/// fetched. The data is empty until the request has been fulfilled.
#[derive(Clone, Debug, PartialEq, Eq)]
pub struct DataInfo {
    /// Where the data is to be fetched from.
    pub url: Vec<u8>,
    /// What was fetched; empty while the request is open.
    pub data: Vec<u8>,
}

/// A [`DataInfo`] as two sequences of bytes.
pub struct DataInfoView {
    pub url: Seq<u8>,
    pub data: Seq<u8>,
}

impl View for DataInfo {
    type V = DataInfoView;

    open spec fn view(&self) -> DataInfoView {
        DataInfoView { url: self.url@, data: self.data@ }
    }
}

impl DeepView for DataInfo {
    type V = DataInfoView;

    open spec fn deep_view(&self) -> DataInfoView {
        self@
    }
}

impl Default for DataInfo {
    /// The record that an index nobody has written to reads as.
    fn default() -> (info: DataInfo)
        ensures
            info@ == DataInfoView::empty(),
    {
        DataInfo { url: Vec::new(), data: Vec::new() }
    }
}

impl DataInfoView {
    /// The record that stands for an index nobody has written to.
    pub open spec fn empty() -> DataInfoView {
        DataInfoView { url: Seq::empty(), data: Seq::empty() }
    }
}

/// The oracle's state.
pub struct Pallet {
    data_id: u64,
    requested: BTreeMap<u64, DataInfo>,
    sibling: ParaId,
}

/// The oracle's state as mathematical values.
pub struct PalletView {
    /// The index that the next data request gets.
    pub data_id: u64,
    /// The data requests by index.
    pub requested: Map<u64, DataInfoView>,
    /// The sibling parachain that serves this chain's cross-chain requests.
    pub sibling: ParaId,
}

impl View for Pallet {
    type V = PalletView;

    closed spec fn view(&self) -> PalletView {
        PalletView {
            data_id: self.data_id,
            requested: self.requested@.map_values(|info: DataInfo| info@),
            sibling: self.sibling,
        }
    }
}

/// The records that a list of entries amounts to, each entry an index and
/// its record: a later entry replaces an earlier one for the same index.
pub open spec fn records_of(entries: Seq<(u64, DataInfoView)>) -> Map<u64, DataInfoView>
    decreases entries.len(),
{
    if entries.len() == 0 {
        Map::empty()
    } else {
        records_of(entries.drop_last()).insert(entries.last().0, entries.last().1)
    }
}

/// Whether a list of requests names the index.
pub open spec fn lists(requests: Seq<(u64, Seq<u8>)>, index: u64) -> bool {
    exists|i: int| 0 <= i < requests.len() && requests[i].0 == index
}

impl PalletView {
    /// The record at an index; an index nobody has written to reads as the
    /// empty record.
    pub open spec fn record(self, index: u64) -> DataInfoView {
        if self.requested.contains_key(index) {
            self.requested[index]
        } else {
            DataInfoView::empty()
        }
    }

    /// Whether the request at the index is open: recorded, and without data.
    pub open spec fn unfulfilled(self, index: u64) -> bool {
        self.requested.contains_key(index) && self.requested[index].data.len() == 0
    }

    /// Whether `open` is a list of the open requests: each entry is an open
    /// request with its URL, each open request has an entry, and none has
    /// two. The order is left open.
    pub open spec fn open_requests(self, open: Seq<(u64, Seq<u8>)>) -> bool {
        &&& forall|i: int|
            0 <= i < open.len() ==> self.unfulfilled(#[trigger] open[i].0) && open[i].1
                == self.requested[open[i].0].url
        &&& forall|index: u64| self.unfulfilled(index) ==> lists(open, index)
        &&& forall|i: int, j: int| 0 <= i < j < open.len() ==> open[i].0 != open[j].0
    }

    /// The state after a request for `url` was recorded under the next free
    /// index.
    pub open spec fn enqueued(self, url: Seq<u8>) -> PalletView
        recommends
            self.data_id < u64::MAX,
    {
        PalletView {
            data_id: (self.data_id + 1) as u64,
            requested: self.requested.insert(
                self.data_id,
                DataInfoView { url, data: Seq::empty() },
            ),
            ..self
        }
    }

    /// The state after `data` was stored at the index: the record keeps its
    /// URL, and an index nobody has written to gets a record without one.
    pub open spec fn fulfilled(self, index: u64, data: Seq<u8>) -> PalletView {
        PalletView {
            requested: self.requested.insert(
                index,
                DataInfoView { url: self.record(index).url, data },
            ),
            ..self
        }
    }

    /// The state after the counter of requests was advanced by one.
    pub open spec fn advanced(self) -> PalletView
        recommends
            self.data_id < u64::MAX,
    {
        PalletView { data_id: (self.data_id + 1) as u64, ..self }
    }
}

impl Pallet {
    /// A fresh oracle whose cross-chain requests go to `sibling`, with the
    /// counter of requests at [`InitialDataId`].
    pub fn new(sibling: ParaId) -> (pallet: Pallet)
        ensures
            pallet@.data_id == 10_000_000,
            pallet@.requested == Map::<u64, DataInfoView>::empty(),
            pallet@.sibling == sibling,
    {
        Pallet::starting_at(sibling, InitialDataId())
    }

    /// A fresh oracle whose counter of requests starts at `data_id`.
    pub fn starting_at(sibling: ParaId, data_id: u64) -> (pallet: Pallet)
        ensures
            pallet@.data_id == data_id,
            pallet@.requested == Map::<u64, DataInfoView>::empty(),
            pallet@.sibling == sibling,
    {
        let pallet = Pallet { data_id, requested: BTreeMap::new(), sibling };
        assert(pallet@.requested =~= Map::<u64, DataInfoView>::empty());
        pallet
    }

    /// An oracle in a given state: the counter of requests at `data_id`,
    /// and the records of `entries`, of which a later one replaces an
    /// earlier one for the same index.
    pub fn restore(sibling: ParaId, data_id: u64, entries: Vec<(u64, DataInfo)>) -> (pallet: Pallet)
        ensures
            pallet@.data_id == data_id,
            pallet@.requested == records_of(entries.deep_view()),
            pallet@.sibling == sibling,
    {
        let ghost all = entries.deep_view();
        let mut requested: BTreeMap<u64, DataInfo> = BTreeMap::new();
        for taken in 0..entries.len()
            invariant
                all == entries.deep_view(),
                requested@.map_values(|info: DataInfo| info@) == records_of(all.take(taken as int)),
        {
            let ghost before = requested@.map_values(|info: DataInfo| info@);
            let entry = &entries[taken];
            let info = DataInfo { url: entry.1.url.clone(), data: entry.1.data.clone() };
            requested.insert(entry.0, info);
            proof {
                let now = all.take(taken + 1);
                assert(now.drop_last() =~= all.take(taken as int));
                assert(now.last() == (entry.0, info@));
                assert(requested@.map_values(|info: DataInfo| info@) =~= before.insert(
                    entry.0,
                    info@,
                ));
            }
        }
        assert(all.take(entries.len() as int) =~= all);
        let pallet = Pallet { data_id, requested, sibling };
        pallet
    }

    /// The index that the next request gets.
    pub fn data_id(&self) -> (id: u64)
        ensures
            id == self@.data_id,
    {
        self.data_id
    }

    /// The sibling parachain that serves this chain's cross-chain requests.
    pub fn sibling(&self) -> (para: ParaId)
        ensures
            para == self@.sibling,
    {
        self.sibling
    }

    /// Reads the record at an index. An index nobody has written to reads
    /// as the empty record.
    pub fn requested_offchain_data(&self, index: u64) -> (info: DataInfo)
        ensures
            info@ == self@.record(index),
    {
        match self.requested.get(&index) {
            Some(info) => DataInfo { url: info.url.clone(), data: info.data.clone() },
            None => DataInfo::default(),
        }
    }

    /// Records a request for the data behind `url` under the next free
    /// index, and yields that index. The origin is not looked at: who may
    /// ask is for the runtime to decide. Whatever an earlier store left at
    /// that index is replaced by the new, open request.
    ///
    /// Fails, and changes nothing, when the counter of requests cannot be
    /// advanced.
    pub fn add_fetch_data_request(&mut self, _origin: Origin, url: Vec<u8>) -> (res: Result<
        u64,
        DispatchError,
    >)
        ensures
            old(self)@.data_id < u64::MAX ==> res == Ok::<u64, DispatchError>(old(self)@.data_id)
                && final(self)@ == old(self)@.enqueued(url@),
            old(self)@.data_id == u64::MAX ==> res == Err::<u64, DispatchError>(
                DispatchError::Module(Error::StorageOverflow),
            ) && final(self)@ == old(self)@,
    {
        let index = self.data_id;
        if index == u64::MAX {
            return Err(DispatchError::Module(Error::StorageOverflow));
        }
        self.data_id = index + 1;
        self.requested.insert(index, DataInfo { url, data: Vec::new() });
        assert(self@.requested =~= old(self)@.enqueued(url@).requested);
        Ok(index)
    }

    /// Stores fetched data at an index, on behalf of the account that
    /// signed the call. The record keeps its URL; data stored earlier is
    /// overwritten; an index nobody has written to gets a record without a
    /// URL.
    ///
    /// Fails, and changes nothing, unless the call is a signed transaction.
    pub fn submit_request_data(&mut self, origin: Origin, index: u64, data: Vec<u8>) -> (res:
        Result<Event, DispatchError>)
        ensures
            match origin.signer() {
                Some(who) => res matches Ok(event) && event@ == EventView::FetchedOffchainData(
                    index,
                    who,
                ) && final(self)@ == old(self)@.fulfilled(index, data@),
                None => res == Err::<Event, DispatchError>(DispatchError::BadOrigin)
                    && final(self)@ == old(self)@,
            },
    {
        let who = match ensure_signed(origin) {
            Ok(who) => who,
            Err(_) => {
                return Err(DispatchError::BadOrigin);
            },
        };
        let url = match self.requested.get(&index) {
            Some(info) => info.url.clone(),
            None => Vec::new(),
        };
        self.requested.insert(index, DataInfo { url, data });
        assert(self@.requested =~= old(self)@.fulfilled(index, data@).requested);
        Ok(Event::FetchedOffchainData(index, who))
    }

    /// Advances the counter of requests by one, leaving a gap in the
    /// indices.
    ///
    /// Fails, and changes nothing, unless the call is a signed transaction
    /// and the counter can be advanced.
    pub fn cause_error(&mut self, origin: Origin) -> (res: Result<(), DispatchError>)
        ensures
            origin.signer() is None ==> res == Err::<(), DispatchError>(DispatchError::BadOrigin)
                && final(self)@ == old(self)@,
            origin.signer() is Some && old(self)@.data_id == u64::MAX ==> res == Err::<
                (),
                DispatchError,
            >(DispatchError::Module(Error::StorageOverflow)) && final(self)@ == old(self)@,
            origin.signer() is Some && old(self)@.data_id < u64::MAX ==> res == Ok::<
                (),
                DispatchError,
            >(()) && final(self)@ == old(self)@.advanced(),
    {
        if ensure_signed(origin).is_err() {
            return Err(DispatchError::BadOrigin);
        }
        match self.data_id.checked_add(1) {
            Some(next) => {
                self.data_id = next;
                Ok(())
            },
            None => Err(DispatchError::Module(Error::StorageOverflow)),
        }
    }

    /// The open requests, each once, with its index and its URL.
    pub fn iterate_unfulfilled(&self) -> (open: Vec<(u64, Vec<u8>)>)
        ensures
            self@.open_requests(open.deep_view()),
    {
        let mut open: Vec<(u64, Vec<u8>)> = Vec::new();
        let ghost entries = self.requested.iter().remaining();
        // For each listed request, the place of its entry in the map's iteration.
        let ghost mut places: Seq<int> = Seq::empty();
        for entry in it: self.requested.iter()
            invariant
                it.seq() == entries,
                entries == self.requested.iter().remaining(),
                entries.no_duplicates(),
                forall|i: int|
                    0 <= i < open.len() ==> self@.unfulfilled(#[trigger] open[i].0)
                        && open[i].1@ == self@.requested[open[i].0].url,
                forall|k: int|
                    0 <= k < it.index() && (#[trigger] entries[k]).1.data@.len() == 0 ==> lists(
                        open.deep_view(),
                        *entries[k].0,
                    ),
                places.len() == open.len(),
                forall|i: int|
                    0 <= i < open.len() ==> 0 <= #[trigger] places[i] < it.index() && open[i].0
                        == *entries[places[i]].0,
                forall|i: int, j: int| 0 <= i < j < open.len() ==> places[i] < places[j],
        {
            let (index, info) = entry;
            let ghost before = open.deep_view();
            assert(entry == entries[it.index()]);
            if info.data.len() == 0 {
                open.push((*index, info.url.clone()));
                proof {
                    places = places.push(it.index());
                }
                assert(open.deep_view()[before.len() as int].0 == *index);
            }
            assert forall|k: int|
                0 <= k < it.index() + 1 && (#[trigger] entries[k]).1.data@.len() == 0 implies lists(
                open.deep_view(),
                *entries[k].0,
            ) by {
                if k < it.index() {
                    let i = choose|i: int| 0 <= i < before.len() && before[i].0 == *entries[k].0;
                    assert(open.deep_view()[i].0 == *entries[k].0);
                }
            }
        }
        let ghost listed = open.deep_view();
        assert forall|i: int| 0 <= i < listed.len() implies self@.unfulfilled(
            #[trigger] listed[i].0,
        ) && listed[i].1 == self@.requested[listed[i].0].url by {
            assert(listed[i] == (open[i].0, open[i].1@));
        }
        assert forall|index: u64| self@.unfulfilled(index) implies lists(listed, index) by {
            let info = self.requested@[index];
            assert(self.requested@.contains_key(index));
            assert(entries.contains((&index, &info)));
            let k = choose|k: int| 0 <= k < entries.len() && entries[k] == (&index, &info);
            assert(entries[k].1.data@.len() == 0);
        }
        assert forall|i: int, j: int| 0 <= i < j < listed.len() implies listed[i].0
            != listed[j].0 by {
            let a = places[i];
            let b = places[j];
            assert(self.requested@[*entries[a].0] == *entries[a].1);
            assert(self.requested@[*entries[b].0] == *entries[b].1);
            assert(listed[i].0 == open[i].0 && listed[j].0 == open[j].0);
            if open[i].0 == open[j].0 {
                assert(entries[a] == entries[b]);
            }
        }
        open
    }
}

} // verus!

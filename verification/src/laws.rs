//! What holds of the oracle across calls.

use vstd::prelude::*;
use crate::call::CallView;
use crate::event::DispatchError;
use crate::origin::{AccountId, Origin};
use crate::pallet::{lists, records_of, DataInfoView, PalletView};
use crate::relay::RequestView;

verus! {

impl PalletView {
    /// Whether the call from this origin records a request.
    pub open spec fn records_request(self, origin: Origin, call: CallView) -> bool {
        call is add_fetch_data_request && self.refusal(origin, call) is None
    }

    /// The state after the calls, dispatched in order.
    pub open spec fn after_all(self, calls: Seq<(Origin, CallView)>) -> PalletView
        decreases calls.len(),
    {
        if calls.len() == 0 {
            self
        } else {
            self.after(calls[0].0, calls[0].1).after_all(calls.drop_first())
        }
    }

    /// The indices under which the calls, dispatched in order, record
    /// requests, in the order in which they are handed out.
    pub open spec fn issued(self, calls: Seq<(Origin, CallView)>) -> Seq<u64>
        decreases calls.len(),
    {
        if calls.len() == 0 {
            Seq::empty()
        } else {
            let rest = self.after(calls[0].0, calls[0].1).issued(calls.drop_first());
            if self.records_request(calls[0].0, calls[0].1) {
                seq![self.data_id] + rest
            } else {
                rest
            }
        }
    }
}

/// No call moves the counter of requests back, and a call that records a
/// request moves it forward.
pub proof fn lemma_counter_never_falls(state: PalletView, origin: Origin, call: CallView)
    ensures
        state.data_id <= state.after(origin, call).data_id,
        state.records_request(origin, call) ==> state.data_id < state.after(origin, call).data_id,
{
}

/// Every index that a run of calls hands out is at or above the counter
/// at which the run began.
pub proof fn lemma_issued_from_counter(state: PalletView, calls: Seq<(Origin, CallView)>, i: int)
    requires
        0 <= i < state.issued(calls).len(),
    ensures
        state.data_id <= state.issued(calls)[i],
    decreases calls.len(),
{
    let next = state.after(calls[0].0, calls[0].1);
    lemma_counter_never_falls(state, calls[0].0, calls[0].1);
    if state.records_request(calls[0].0, calls[0].1) {
        if i > 0 {
            lemma_issued_from_counter(next, calls.drop_first(), i - 1);
        }
    } else {
        lemma_issued_from_counter(next, calls.drop_first(), i);
    }
}

/// Whatever calls are dispatched, in whatever order and from whatever
/// origins, the indices handed out to new requests rise strictly: a later
/// request never gets the index of an earlier one, nor a smaller one.
pub proof fn lemma_indices_rise_strictly(
    state: PalletView,
    calls: Seq<(Origin, CallView)>,
    i: int,
    j: int,
)
    requires
        0 <= i < j < state.issued(calls).len(),
    ensures
        state.issued(calls)[i] < state.issued(calls)[j],
    decreases calls.len(),
{
    let next = state.after(calls[0].0, calls[0].1);
    lemma_counter_never_falls(state, calls[0].0, calls[0].1);
    if state.records_request(calls[0].0, calls[0].1) {
        if i == 0 {
            lemma_issued_from_counter(next, calls.drop_first(), j - 1);
        } else {
            lemma_indices_rise_strictly(next, calls.drop_first(), i - 1, j - 1);
        }
    } else {
        lemma_indices_rise_strictly(next, calls.drop_first(), i, j);
    }
}

/// A request that was just recorded is open, under the index it was given
/// and with its URL, and no other record has changed.
pub proof fn lemma_recorded_request_is_open(state: PalletView, url: Seq<u8>)
    requires
        state.data_id < u64::MAX,
    ensures
        state.enqueued(url).unfulfilled(state.data_id),
        state.enqueued(url).record(state.data_id).url == url,
        forall|other: u64|
            other != state.data_id ==> state.enqueued(url).record(other) == state.record(other),
{
}

/// Reading an index right after data was stored there yields exactly that
/// data, under the URL the record had; no other record has changed.
pub proof fn lemma_read_after_store(state: PalletView, index: u64, data: Seq<u8>)
    ensures
        state.fulfilled(index, data).record(index).data == data,
        state.fulfilled(index, data).record(index).url == state.record(index).url,
        forall|other: u64|
            other != index ==> state.fulfilled(index, data).record(other) == state.record(other),
        state.fulfilled(index, data).data_id == state.data_id,
{
}

/// Of two stores to one index the later one wins: the record holds the
/// later data, and the state is the same as if the earlier store had never
/// happened.
pub proof fn lemma_last_store_wins(state: PalletView, index: u64, first: Seq<u8>, second: Seq<u8>)
    ensures
        state.fulfilled(index, first).fulfilled(index, second).record(index).data == second,
        state.fulfilled(index, first).fulfilled(index, second) == state.fulfilled(index, second),
{
    assert(state.fulfilled(index, first).fulfilled(index, second).requested =~= state.fulfilled(
        index,
        second,
    ).requested);
}

/// Submitting the same data for the same index twice, from whatever
/// origin, leaves the state that submitting it once leaves. This is what
/// makes it safe for every local account to submit the same fetch.
pub proof fn lemma_submission_is_idempotent(
    state: PalletView,
    origin: Origin,
    index: u64,
    data: Seq<u8>,
)
    ensures
        ({
            let call = CallView::submit_request_data { index, data };
            state.after(origin, call).after(origin, call) == state.after(origin, call)
        }),
{
    lemma_last_store_wins(state, index, data, data);
}

/// Once data has been stored for a request, the request is no longer open,
/// and no list of the open requests names it. Storing nothing leaves it
/// open.
pub proof fn lemma_store_closes_request(
    state: PalletView,
    index: u64,
    data: Seq<u8>,
    open: Seq<(u64, Seq<u8>)>,
)
    requires
        state.fulfilled(index, data).open_requests(open),
    ensures
        data.len() > 0 ==> !state.fulfilled(index, data).unfulfilled(index) && !lists(open, index),
        data.len() == 0 ==> state.fulfilled(index, data).unfulfilled(index) && lists(open, index),
{
    if data.len() > 0 && lists(open, index) {
        let i = choose|i: int| 0 <= i < open.len() && open[i].0 == index;
        assert(state.fulfilled(index, data).unfulfilled(open[i].0));
    }
}

/// What the worker submits for a request it planned closes that request
/// and no other: once a local account's submission of fetched data is
/// dispatched, the record holds the data under its URL, the request is no
/// longer open, and every other request is as open as it was.
pub proof fn lemma_submission_closes_planned_request(
    state: PalletView,
    jobs: Seq<(u64, Seq<u8>)>,
    k: int,
    data: Seq<u8>,
    who: AccountId,
)
    requires
        state.open_requests(jobs),
        0 <= k < jobs.len(),
        data.len() > 0,
    ensures
        ({
            let call = CallView::submit_request_data { index: jobs[k].0, data };
            let next = state.after(Origin::Signed(who), call);
            &&& next.record(jobs[k].0) == DataInfoView { url: jobs[k].1, data }
            &&& !next.unfulfilled(jobs[k].0)
            &&& forall|other: u64|
                other != jobs[k].0 ==> next.unfulfilled(other) == state.unfulfilled(other)
            &&& next.data_id == state.data_id
        }),
{
    assert(state.unfulfilled(jobs[k].0));
}

/// The call that a request message carries is served for a sibling
/// parachain and for nobody else, and serving it leaves the ledger as it
/// is.
pub proof fn lemma_request_is_served_for_siblings_only(
    state: PalletView,
    origin: Origin,
    request: RequestView,
)
    ensures
        ({
            let call = request.request_message().call();
            &&& state.refusal(origin, call) is None <==> origin.sibling() is Some
            &&& state.after(origin, call) == state
        }),
{
}

/// A reply never sets off another request: the call that a reply message
/// carries is refused when it arrives from a parachain, whichever, and
/// changes nothing. Requests and replies cannot chase each other between
/// two chains.
pub proof fn lemma_reply_sets_off_no_request(
    state: PalletView,
    origin: Origin,
    request: RequestView,
    fetched: Seq<u8>,
)
    requires
        origin.signer() is None,
    ensures
        ({
            let call = request.reply_message(fetched).call();
            &&& state.refusal(origin, call) == Some(DispatchError::BadOrigin)
            &&& state.after(origin, call) == state
        }),
{
}

/// A restored ledger has a record at exactly the indices that the entries
/// name.
pub proof fn lemma_restored_indices(entries: Seq<(u64, DataInfoView)>, index: u64)
    ensures
        records_of(entries).contains_key(index) <==> exists|i: int|
            0 <= i < entries.len() && entries[i].0 == index,
    decreases entries.len(),
{
    if entries.len() > 0 {
        let front = entries.drop_last();
        lemma_restored_indices(front, index);
        if entries.last().0 == index {
            assert(entries[entries.len() - 1].0 == index);
        } else {
            if records_of(front).contains_key(index) {
                let i = choose|i: int| 0 <= i < front.len() && front[i].0 == index;
                assert(entries[i].0 == index);
            }
            if exists|i: int| 0 <= i < entries.len() && entries[i].0 == index {
                let i = choose|i: int| 0 <= i < entries.len() && entries[i].0 == index;
                assert(front[i].0 == index);
            }
        }
    }
}

/// A restored ledger holds, at each index, the record of the last entry
/// that names the index.
pub proof fn lemma_restored_record(entries: Seq<(u64, DataInfoView)>, i: int)
    requires
        0 <= i < entries.len(),
        forall|j: int| i < j < entries.len() ==> entries[j].0 != entries[i].0,
    ensures
        records_of(entries).contains_key(entries[i].0),
        records_of(entries)[entries[i].0] == entries[i].1,
    decreases entries.len(),
{
    if i < entries.len() - 1 {
        let front = entries.drop_last();
        assert(front[i] == entries[i]);
        assert forall|j: int| i < j < front.len() implies front[j].0 != front[i].0 by {
            assert(front[j] == entries[j]);
        }
        lemma_restored_record(front, i);
    }
}

} // verus!

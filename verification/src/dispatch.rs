//! The single entry through which every call reaches the oracle.

use vstd::prelude::*;
use crate::call::{Call, CallView};
use crate::event::{DispatchError, Error, Event, EventView};
use crate::origin::Origin;
use crate::pallet::{Pallet, PalletView};
use crate::relay::{PendingFetch, PendingRequest, RequestView};

verus! {

/// What a call that was accepted leaves behind for the caller.
pub enum Dispatched {
    /// A request was recorded under this index.
    Added(u64),
    /// Fetched data was stored; the event says where and for whom.
    Stored(Event),
    /// The counter of requests was advanced.
    Advanced,
    /// A request to the sibling was accepted: the event to deposit, and
    /// the request that awaits the transport.
    Requested(Event, PendingRequest),
    /// A sibling's request was accepted and awaits the fetch.
    Fetching(PendingFetch),
}

impl PalletView {
    /// Why the oracle refuses the call from this origin, if it does.
    pub open spec fn refusal(self, origin: Origin, call: CallView) -> Option<DispatchError> {
        match call {
            CallView::submit_request_data { .. } | CallView::request_offchain_data_cross_chain {
                ..
            } => if origin.signer() is None {
                Some(DispatchError::BadOrigin)
            } else {
                None
            },
            CallView::cause_error => if origin.signer() is None {
                Some(DispatchError::BadOrigin)
            } else if self.data_id == u64::MAX {
                Some(DispatchError::Module(Error::StorageOverflow))
            } else {
                None
            },
            CallView::fetch_offchain_data_cross_chain { .. } => if origin.sibling() is None {
                Some(DispatchError::BadOrigin)
            } else {
                None
            },
            CallView::add_fetch_data_request { .. } => if self.data_id == u64::MAX {
                Some(DispatchError::Module(Error::StorageOverflow))
            } else {
                None
            },
        }
    }

    /// The state after the call from this origin. A call that is refused
    /// changes nothing, and neither does a call of the relay.
    pub open spec fn after(self, origin: Origin, call: CallView) -> PalletView {
        if self.refusal(origin, call) is Some {
            self
        } else {
            match call {
                CallView::submit_request_data { index, data } => self.fulfilled(index, data),
                CallView::cause_error => self.advanced(),
                CallView::add_fetch_data_request { url } => self.enqueued(url),
                _ => self,
            }
        }
    }

    /// Whether `outcome` is what the accepted call from this origin leaves
    /// behind.
    pub open spec fn answers(self, origin: Origin, call: CallView, outcome: Dispatched) -> bool {
        match (call, outcome) {
            (CallView::add_fetch_data_request { .. }, Dispatched::Added(index)) => index
                == self.data_id,
            (
                CallView::submit_request_data { index, .. },
                Dispatched::Stored(event),
            ) => origin.signer() matches Some(who) && event@ == EventView::FetchedOffchainData(
                index,
                who,
            ),
            (CallView::cause_error, Dispatched::Advanced) => true,
            (
                CallView::request_offchain_data_cross_chain { seq, data },
                Dispatched::Requested(event, pending),
            ) => pending@ == (RequestView { para: self.sibling, seq, data }) && event@
                == EventView::RequestedOffchainDataViaXCM(self.sibling, seq, data),
            (
                CallView::fetch_offchain_data_cross_chain { seq, data },
                Dispatched::Fetching(pending),
            ) => origin.sibling() matches Some(para) && pending@ == (RequestView {
                para,
                seq,
                data,
            }),
            _ => false,
        }
    }
}

impl Pallet {
    /// Dispatches a call from the given origin. A call that is refused
    /// fails with the reason and changes nothing.
    pub fn dispatch(&mut self, origin: Origin, call: Call) -> (res: Result<
        Dispatched,
        DispatchError,
    >)
        ensures
            final(self)@ == old(self)@.after(origin, call@),
            match old(self)@.refusal(origin, call@) {
                Some(e) => res matches Err(err) && err == e,
                None => res matches Ok(outcome) && old(self)@.answers(origin, call@, outcome),
            },
    {
        match call {
            Call::submit_request_data { index, data } => {
                match self.submit_request_data(origin, index, data) {
                    Ok(event) => Ok(Dispatched::Stored(event)),
                    Err(e) => Err(e),
                }
            },
            Call::cause_error => {
                match self.cause_error(origin) {
                    Ok(_) => Ok(Dispatched::Advanced),
                    Err(e) => Err(e),
                }
            },
            Call::request_offchain_data_cross_chain { seq, data } => {
                match self.request_offchain_data_cross_chain(origin, seq, data) {
                    Ok((event, pending)) => Ok(Dispatched::Requested(event, pending)),
                    Err(e) => Err(e),
                }
            },
            Call::fetch_offchain_data_cross_chain { seq, data } => {
                match self.fetch_offchain_data_cross_chain(origin, seq, data) {
                    Ok(pending) => Ok(Dispatched::Fetching(pending)),
                    Err(e) => Err(e),
                }
            },
            Call::add_fetch_data_request { url } => {
                match self.add_fetch_data_request(origin, url) {
                    Ok(index) => Ok(Dispatched::Added(index)),
                    Err(e) => Err(e),
                }
            },
        }
    }
}

} // verus!

//! The dispatchable calls of the oracle, as values.

use vstd::prelude::*;

verus! {

/// A call into the oracle: what a transaction or a cross-chain message
/// asks it to do.
#[allow(non_camel_case_types)]
#[derive(Clone, Debug, PartialEq, Eq)]
pub enum Call {
    /// Store `data` as what was fetched for the request at `index`.
    submit_request_data { index: u64, data: Vec<u8> },
    /// Advance the counter of requests.
    cause_error,
    /// Ask the sibling parachain to fetch data for this chain.
    request_offchain_data_cross_chain { seq: u32, data: Vec<u8> },
    /// Fetch data for the sibling parachain that sent the call.
    fetch_offchain_data_cross_chain { seq: u32, data: Vec<u8> },
    /// Record a request for the data behind `url`.
    add_fetch_data_request { url: Vec<u8> },
}

/// A [`Call`] with its bytes as sequences.
#[allow(non_camel_case_types)]
pub enum CallView {
    submit_request_data { index: u64, data: Seq<u8> },
    cause_error,
    request_offchain_data_cross_chain { seq: u32, data: Seq<u8> },
    fetch_offchain_data_cross_chain { seq: u32, data: Seq<u8> },
    add_fetch_data_request { url: Seq<u8> },
}

impl View for Call {
    type V = CallView;

    open spec fn view(&self) -> CallView {
        match *self {
            Call::submit_request_data { index, data } => CallView::submit_request_data {
                index,
                data: data@,
            },
            Call::cause_error => CallView::cause_error,
            Call::request_offchain_data_cross_chain {
                seq,
                data,
            } => CallView::request_offchain_data_cross_chain { seq, data: data@ },
            Call::fetch_offchain_data_cross_chain {
                seq,
                data,
            } => CallView::fetch_offchain_data_cross_chain { seq, data: data@ },
            Call::add_fetch_data_request { url } => CallView::add_fetch_data_request { url: url@ },
        }
    }
}

} // verus!

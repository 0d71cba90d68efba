//! What a dispatchable reports: the events it emits and the errors it
//! fails with.

use vstd::prelude::*;
use crate::origin::{AccountId, ParaId};

verus! {

/// Why the message transport refused a message.
#[derive(Clone, Copy, Debug, PartialEq, Eq)]
pub enum SendError {
    /// No route of the transport applies to the destination.
    NotApplicable,
    /// The transport mechanism failed; the text says how.
    Transport(&'static str),
    /// The destination is known to be unreachable.
    Unroutable,
    /// The destination cannot interpret the message's format.
    DestinationUnsupported,
    /// The message is larger than the transport carries.
    ExceedsMaxMessageSize,
    /// An argument that the transport needs was missing.
    MissingArgument,
    /// The fees for sending could not be paid.
    Fees,
}

/// The events of the oracle.
#[derive(Clone, Debug, PartialEq, Eq)]
pub enum Event {
    /// Fetched data was stored under the index, on behalf of the account.
    FetchedOffchainData(u64, AccountId),
    /// A sibling's request was served and the reply was handed to the
    /// transport: the sibling, the sequence number, the request's payload.
    FetchedOffchainDataViaXCM(ParaId, u32, Vec<u8>),
    /// A request to the sibling was accepted: the sibling, the sequence
    /// number, the payload.
    RequestedOffchainDataViaXCM(ParaId, u32, Vec<u8>),
    /// The transport refused a request to the sibling.
    ErrorRequestingData(SendError, ParaId, u32, Vec<u8>),
    /// The transport refused the reply to the sibling.
    ErrorFetchingData(SendError, ParaId, u32, Vec<u8>),
}

/// An [`Event`] with its payload as a sequence of bytes.
pub enum EventView {
    FetchedOffchainData(u64, AccountId),
    FetchedOffchainDataViaXCM(ParaId, u32, Seq<u8>),
    RequestedOffchainDataViaXCM(ParaId, u32, Seq<u8>),
    ErrorRequestingData(SendError, ParaId, u32, Seq<u8>),
    ErrorFetchingData(SendError, ParaId, u32, Seq<u8>),
}

impl View for Event {
    type V = EventView;

    open spec fn view(&self) -> EventView {
        match *self {
            Event::FetchedOffchainData(index, who) => EventView::FetchedOffchainData(index, who),
            Event::FetchedOffchainDataViaXCM(para, seq, data) => EventView::FetchedOffchainDataViaXCM(
                para,
                seq,
                data@,
            ),
            Event::RequestedOffchainDataViaXCM(para, seq, data) => EventView::RequestedOffchainDataViaXCM(
                para,
                seq,
                data@,
            ),
            Event::ErrorRequestingData(e, para, seq, data) => EventView::ErrorRequestingData(
                e,
                para,
                seq,
                data@,
            ),
            Event::ErrorFetchingData(e, para, seq, data) => EventView::ErrorFetchingData(
                e,
                para,
                seq,
                data@,
            ),
        }
    }
}

/// The oracle's own errors.
#[derive(Clone, Copy, Debug, PartialEq, Eq, Structural)]
pub enum Error {
    /// A value that was expected in storage is not there.
    NoneValue,
    /// The counter of data requests cannot be advanced any further.
    StorageOverflow,
}

/// Why a dispatchable failed. A failed dispatchable changes nothing.
#[derive(Clone, Copy, Debug, PartialEq, Eq, Structural)]
pub enum DispatchError {
    /// The call's origin is not one the dispatchable accepts.
    BadOrigin,
    /// The oracle refused the call.
    Module(Error),
}

} // verus!

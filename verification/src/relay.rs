//! The relay between sibling parachains: one chain asks its sibling to
//! fetch data, the sibling fetches and replies.
//!
//! Each hop is a short chain of steps. A step decides; the caller performs
//! what the step asks for (a fetch, the sending of a message) and reports
//! the outcome to the next step. Every event that a step returns is
//! deposited by the caller.

use vstd::prelude::*;
use crate::call::{Call, CallView};
use crate::event::{DispatchError, Event, EventView, SendError};
use crate::fetch::FetchError;
use crate::origin::{ensure_signed, ensure_sibling_para, Origin, ParaId};
use crate::pallet::Pallet;

verus! {

/// The weight that the receiving chain may spend on the call of a message.
pub const REQUIRE_WEIGHT_AT_MOST: u64 = 1_000;

/// Which way a message travels.
#[derive(Clone, Copy, Debug, PartialEq, Eq, Structural)]
pub enum Direction {
    /// From the chain that wants data to the chain that fetches it.
    Request,
    /// From the chain that fetched back to the chain that asked.
    Reply,
}

/// A message to a sibling parachain. It lives for one step of the relay:
/// it is built, handed to the transport, and forgotten.
#[derive(Clone, Debug, PartialEq, Eq)]
pub struct CrossDomainMessage {
    /// The parachain that the message goes to.
    pub dest: ParaId,
    /// Which way the message travels.
    pub direction: Direction,
    /// The sequence number under which the requester filed its request.
    pub sequence: u32,
    /// The request's payload, or the fetched data.
    pub payload: Vec<u8>,
}

/// A [`CrossDomainMessage`] with its payload as a sequence of bytes.
pub struct CrossDomainMessageView {
    pub dest: ParaId,
    pub direction: Direction,
    pub sequence: u32,
    pub payload: Seq<u8>,
}

impl View for CrossDomainMessage {
    type V = CrossDomainMessageView;

    open spec fn view(&self) -> CrossDomainMessageView {
        CrossDomainMessageView {
            dest: self.dest,
            direction: self.direction,
            sequence: self.sequence,
            payload: self.payload@,
        }
    }
}

impl CrossDomainMessageView {
    /// The call that the message asks the receiving chain to dispatch: a
    /// request asks it to fetch, a reply hands it the answer.
    pub open spec fn call(self) -> CallView {
        match self.direction {
            Direction::Request => CallView::fetch_offchain_data_cross_chain {
                seq: self.sequence,
                data: self.payload,
            },
            Direction::Reply => CallView::request_offchain_data_cross_chain {
                seq: self.sequence,
                data: self.payload,
            },
        }
    }
}

impl CrossDomainMessage {
    /// The call that the message asks the receiving chain to dispatch, to
    /// be sent with [`REQUIRE_WEIGHT_AT_MOST`] and the sender's native
    /// origin.
    pub fn call(self) -> (call: Call)
        ensures
            call@ == self@.call(),
    {
        match self.direction {
            Direction::Request => Call::fetch_offchain_data_cross_chain {
                seq: self.sequence,
                data: self.payload,
            },
            Direction::Reply => Call::request_offchain_data_cross_chain {
                seq: self.sequence,
                data: self.payload,
            },
        }
    }
}

/// The data that stands in the reply where the fetch failed: the text
/// `Failed fetch data`.
pub open spec fn failed_fetch_data() -> Seq<u8> {
    seq![
        70u8, 97u8, 105u8, 108u8, 101u8, 100u8, 32u8, 102u8, 101u8, 116u8, 99u8, 104u8, 32u8,
        100u8, 97u8, 116u8, 97u8,
    ]
}

/// What the reply carries after a fetch: the fetched data, or
/// [`failed_fetch_data`] in its place. The requester is not told why a
/// fetch failed.
pub open spec fn reply_payload(fetched: Result<Vec<u8>, FetchError>) -> Seq<u8> {
    match fetched {
        Ok(data) => data@,
        Err(_) => failed_fetch_data(),
    }
}

/// A request to the sibling that was accepted and awaits the transport.
pub struct PendingRequest {
    para: ParaId,
    seq: u32,
    data: Vec<u8>,
}

/// A sibling's request that was accepted and awaits the fetch.
pub struct PendingFetch {
    para: ParaId,
    seq: u32,
    data: Vec<u8>,
}

/// A reply to the sibling that awaits the transport.
pub struct PendingReply {
    para: ParaId,
    seq: u32,
    data: Vec<u8>,
    fetched: Vec<u8>,
}

/// What a step of the relay remembers of the request it serves.
pub struct RequestView {
    /// The sibling at the other end.
    pub para: ParaId,
    /// The sequence number under which the requester filed the request.
    pub seq: u32,
    /// The request's payload.
    pub data: Seq<u8>,
}

impl View for PendingRequest {
    type V = RequestView;

    closed spec fn view(&self) -> RequestView {
        RequestView { para: self.para, seq: self.seq, data: self.data@ }
    }
}

impl View for PendingFetch {
    type V = RequestView;

    closed spec fn view(&self) -> RequestView {
        RequestView { para: self.para, seq: self.seq, data: self.data@ }
    }
}

impl PendingReply {
    /// The request that the reply answers.
    pub closed spec fn request(&self) -> RequestView {
        RequestView { para: self.para, seq: self.seq, data: self.data@ }
    }

    /// The data that the reply carries.
    pub closed spec fn fetched(&self) -> Seq<u8> {
        self.fetched@
    }
}

impl RequestView {
    /// The message that carries the request to the sibling.
    pub open spec fn request_message(self) -> CrossDomainMessageView {
        CrossDomainMessageView {
            dest: self.para,
            direction: Direction::Request,
            sequence: self.seq,
            payload: self.data,
        }
    }

    /// The message that carries `fetched` back to the sibling that asked.
    pub open spec fn reply_message(self, fetched: Seq<u8>) -> CrossDomainMessageView {
        CrossDomainMessageView {
            dest: self.para,
            direction: Direction::Reply,
            sequence: self.seq,
            payload: fetched,
        }
    }
}

impl Pallet {
    /// Accepts a request for the sibling parachain to fetch data on this
    /// chain's behalf. Only a signed transaction may ask: a call that a
    /// sibling (or anyone else) sent is refused, so that a reply can never
    /// set off another request.
    ///
    /// On acceptance the event says that the request was filed, and the
    /// pending request holds the message for the transport.
    pub fn request_offchain_data_cross_chain(&self, origin: Origin, seq: u32, data: Vec<u8>) -> (res:
        Result<(Event, PendingRequest), DispatchError>)
        ensures
            match origin.signer() {
                Some(_) => res matches Ok((event, pending)) && pending@ == (RequestView {
                    para: self@.sibling,
                    seq,
                    data: data@,
                }) && event@ == EventView::RequestedOffchainDataViaXCM(self@.sibling, seq, data@),
                None => res matches Err(DispatchError::BadOrigin),
            },
    {
        if ensure_signed(origin).is_err() {
            return Err(DispatchError::BadOrigin);
        }
        let para = self.sibling();
        let event = Event::RequestedOffchainDataViaXCM(para, seq, data.clone());
        Ok((event, PendingRequest { para, seq, data }))
    }

    /// Accepts a sibling parachain's request to fetch data. Only a call
    /// that the transport attests as sent by a sibling is accepted, and the
    /// reply will go to that sibling; nothing is fetched for anyone else.
    pub fn fetch_offchain_data_cross_chain(&self, origin: Origin, seq: u32, data: Vec<u8>) -> (res:
        Result<PendingFetch, DispatchError>)
        ensures
            match origin.sibling() {
                Some(para) => res matches Ok(pending) && pending@ == (RequestView {
                    para,
                    seq,
                    data: data@,
                }),
                None => res matches Err(DispatchError::BadOrigin),
            },
    {
        match ensure_sibling_para(origin) {
            Ok(para) => Ok(PendingFetch { para, seq, data }),
            Err(_) => Err(DispatchError::BadOrigin),
        }
    }
}

impl PendingRequest {
    /// The message to hand to the transport.
    pub fn message(&self) -> (message: CrossDomainMessage)
        ensures
            message@ == self@.request_message(),
    {
        CrossDomainMessage {
            dest: self.para,
            direction: Direction::Request,
            sequence: self.seq,
            payload: self.data.clone(),
        }
    }

    /// Ends the request with what the transport said. Where it took the
    /// message there is nothing more to report; where it refused, the event
    /// says so. The request is not sent again.
    pub fn sent(self, outcome: Result<(), SendError>) -> (event: Option<Event>)
        ensures
            match outcome {
                Ok(_) => event is None,
                Err(e) => event matches Some(event) && event@ == EventView::ErrorRequestingData(
                    e,
                    self@.para,
                    self@.seq,
                    self@.data,
                ),
            },
    {
        match outcome {
            Ok(_) => None,
            Err(e) => Some(Event::ErrorRequestingData(e, self.para, self.seq, self.data)),
        }
    }
}

/// The URL that is fetched for a sibling.
pub const PRICE_URL: &'static str =
    "https://min-api.cryptocompare.com/data/price?fsym=BTC&tsyms=USD";

impl PendingFetch {
    /// The URL to fetch.
    pub fn url(&self) -> (url: &'static str)
        ensures
            url@ == PRICE_URL@,
    {
        PRICE_URL
    }

    /// Takes the outcome of the fetch and prepares the reply. The reply
    /// carries the fetched data, or [`failed_fetch_data`] where the fetch
    /// failed: the sibling always gets an answer.
    pub fn fetched(self, outcome: Result<Vec<u8>, FetchError>) -> (reply: PendingReply)
        ensures
            reply.request() == self@,
            reply.fetched() == reply_payload(outcome),
    {
        let fetched = match outcome {
            Ok(data) => data,
            Err(_) => vec![
                70u8, 97u8, 105u8, 108u8, 101u8, 100u8, 32u8, 102u8, 101u8, 116u8, 99u8, 104u8,
                32u8, 100u8, 97u8, 116u8, 97u8,
            ],
        };
        assert(fetched@ =~= reply_payload(outcome));
        PendingReply { para: self.para, seq: self.seq, data: self.data, fetched }
    }
}

impl PendingReply {
    /// The message to hand to the transport.
    pub fn message(&self) -> (message: CrossDomainMessage)
        ensures
            message@ == self.request().reply_message(self.fetched()),
    {
        CrossDomainMessage {
            dest: self.para,
            direction: Direction::Reply,
            sequence: self.seq,
            payload: self.fetched.clone(),
        }
    }

    /// Ends the hop with what the transport said: the event tells whether
    /// the reply is on its way. Either way it names the request's payload,
    /// not the fetched data. The reply is not sent again.
    pub fn sent(self, outcome: Result<(), SendError>) -> (event: Event)
        ensures
            event@ == match outcome {
                Ok(_) => EventView::FetchedOffchainDataViaXCM(
                    self.request().para,
                    self.request().seq,
                    self.request().data,
                ),
                Err(e) => EventView::ErrorFetchingData(
                    e,
                    self.request().para,
                    self.request().seq,
                    self.request().data,
                ),
            },
    {
        match outcome {
            Ok(_) => Event::FetchedOffchainDataViaXCM(self.para, self.seq, self.data),
            Err(e) => Event::ErrorFetchingData(e, self.para, self.seq, self.data),
        }
    }
}

} // verus!

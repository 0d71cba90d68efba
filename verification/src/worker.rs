//! The off-chain worker: once per block it fetches the data of every open
//! request and submits what it got.
//!
//! The worker never writes to the ledger. It plans a [`Tick`] from the
//! ledger as it stands, and for each request of the plan the caller fetches
//! the URL and reports the outcome; the tick answers with the call to
//! submit, signed by every local account, or with nothing where the fetch
//! failed. A request whose fetch failed stays open and is planned again on
//! the next tick.

use vstd::prelude::*;
use crate::call::{Call, CallView};
use crate::fetch::FetchError;
use crate::pallet::Pallet;

verus! {

/// Why the worker did not start.
#[derive(Clone, Copy, Debug, PartialEq, Eq, Structural)]
pub enum WorkerError {
    /// The keystore holds no account to sign with.
    NoLocalAccounts,
}

impl WorkerError {
    /// The error in words.
    pub fn message(&self) -> (text: &'static str)
        ensures
            text@ == "No local accounts available. Consider adding one via `author_insertKey` RPC."@,
    {
        "No local accounts available. Consider adding one via `author_insertKey` RPC."
    }
}

/// One run of the worker: the requests that were open when it started, and
/// how many of them have been dealt with.
pub struct Tick {
    jobs: Vec<(u64, Vec<u8>)>,
    done: usize,
}

/// A [`Tick`] as mathematical values.
pub struct TickView {
    /// The planned requests, each with its index and its URL.
    pub jobs: Seq<(u64, Seq<u8>)>,
    /// How many of them have been dealt with, from the front.
    pub done: nat,
}

impl View for Tick {
    type V = TickView;

    closed spec fn view(&self) -> TickView {
        TickView { jobs: self.jobs.deep_view(), done: self.done as nat }
    }
}

impl TickView {
    /// Whether every planned request has been dealt with.
    pub open spec fn finished(self) -> bool {
        self.done >= self.jobs.len()
    }

    /// The call to submit once the fetch for the current request has ended
    /// in `outcome`: the fetched data goes to the request's index, and a
    /// failed fetch submits nothing.
    pub open spec fn submission(self, outcome: Result<Vec<u8>, FetchError>) -> Option<CallView>
        recommends
            !self.finished(),
    {
        match outcome {
            Ok(data) => Some(
                CallView::submit_request_data { index: self.jobs[self.done as int].0, data: data@ },
            ),
            Err(_) => None,
        }
    }
}

impl Tick {
    /// The planned state of a tick is well formed: it never counts more
    /// requests as done than it planned.
    #[verifier::type_invariant]
    spec fn well_formed(self) -> bool {
        self.done <= self.jobs.len()
    }

    /// Whether every planned request has been dealt with.
    pub fn finished(&self) -> (done: bool)
        ensures
            done == self@.finished(),
    {
        proof {
            use_type_invariant(self);
        }
        self.done >= self.jobs.len()
    }

    /// The request to fetch next, with its index and its URL; none once the
    /// tick is finished.
    pub fn current(&self) -> (job: Option<&(u64, Vec<u8>)>)
        ensures
            self@.finished() ==> job is None,
            !self@.finished() ==> (job matches Some(job) && (job.0, job.1@)
                == self@.jobs[self@.done as int]),
    {
        if self.done < self.jobs.len() {
            Some(&self.jobs[self.done])
        } else {
            None
        }
    }

    /// Takes the outcome of the fetch for the current request and moves on
    /// to the next one, whatever the outcome was. Yields the call to submit
    /// under every local account, or nothing where the fetch failed.
    ///
    /// On a finished tick this does nothing and yields nothing.
    pub fn fetched(&mut self, outcome: Result<Vec<u8>, FetchError>) -> (call: Option<Call>)
        ensures
            final(self)@.jobs == old(self)@.jobs,
            old(self)@.finished() ==> call is None && final(self)@.done == old(self)@.done,
            !old(self)@.finished() ==> final(self)@.done == old(self)@.done + 1 && match old(
                self,
            )@.submission(outcome) {
                Some(expected) => call matches Some(call) && call@ == expected,
                None => call is None,
            },
    {
        proof {
            use_type_invariant(&*self);
        }
        if self.done >= self.jobs.len() {
            return None;
        }
        let index = self.jobs[self.done].0;
        self.done = self.done + 1;
        match outcome {
            Ok(data) => Some(Call::submit_request_data { index, data }),
            Err(_) => None,
        }
    }
}

impl Pallet {
    /// Plans one run of the worker. It starts only where the keystore holds
    /// an account to sign with, and then plans every request that is open,
    /// once.
    pub fn fetch_data_and_send_signed(&self, can_sign: bool) -> (res: Result<Tick, WorkerError>)
        ensures
            !can_sign ==> res matches Err(WorkerError::NoLocalAccounts),
            can_sign ==> (res matches Ok(tick) && tick@.done == 0 && self@.open_requests(
                tick@.jobs,
            )),
    {
        if !can_sign {
            return Err(WorkerError::NoLocalAccounts);
        }
        Ok(Tick { jobs: self.iterate_unfulfilled(), done: 0 })
    }
}

} // verus!

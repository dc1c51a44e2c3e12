//! The decisions of the dispatch pipeline: what a submission worker does
//! with each answer of the queue, and when and what it reports about
//! throughput. Threads, the queue, the clock and HTTP stay with the caller,
//! which performs each decision.

use vstd::prelude::*;
use vstd::string::StringExecFns;

use crate::text::{decimal, decimal_string};

verus! {

/// Submissions between two throughput reports.
pub const BATCH_SIZE: usize = 10_000;

/// Capacity of the queue between the generation worker and the submission
/// workers.
pub const CHANNEL_SIZE: usize = 500_000;

/// What the queue answered to a submission worker's pop.
#[derive(Debug)]
pub enum QueueEvent {
    /// An envelope to submit.
    Received(String),
    /// Nothing queued now, but the producer may still send.
    Empty,
    /// The producer is gone and nothing is left.
    Closed,
}

/// What a submission worker does next.
#[derive(Debug)]
pub enum WorkerAction {
    /// Post this envelope to the worker's host, then pop again.
    Submit(String),
    /// Log that nothing was there and pop again.
    PollAgain,
    /// Leave the loop.
    Stop,
}

/// The decision of a submission worker on one answer of the queue: an
/// envelope is submitted, an empty but open queue is polled again, and only
/// a closed and drained queue ends the worker.
pub fn next_action(event: QueueEvent) -> (r: WorkerAction)
    ensures
        match event {
            QueueEvent::Received(e) => r matches WorkerAction::Submit(s) && s@ == e@,
            QueueEvent::Empty => r matches WorkerAction::PollAgain,
            QueueEvent::Closed => r matches WorkerAction::Stop,
        },
{
    match event {
        QueueEvent::Received(e) => WorkerAction::Submit(e),
        QueueEvent::Empty => WorkerAction::PollAgain,
        QueueEvent::Closed => WorkerAction::Stop,
    }
}

/// Whether the submission that found the shared counter at `previous`
/// crosses a reporting point: a positive multiple of `BATCH_SIZE`.
pub open spec fn crosses_batch(previous: nat) -> bool {
    previous > 0 && previous % (BATCH_SIZE as nat) == 0
}

pub fn is_report_point(previous: usize) -> (r: bool)
    ensures
        r == crosses_batch(previous as nat),
{
    previous > 0 && previous % BATCH_SIZE == 0
}

/// One throughput report: `BATCH_SIZE` submissions took `elapsed_ms`
/// milliseconds; the rate, in submissions per second, is known when some
/// time has passed.
#[derive(Clone, Copy, Debug, PartialEq, Eq, Structural)]
pub struct ThroughputReport {
    pub transactions: usize,
    pub elapsed_ms: u128,
    pub rate: Option<u128>,
}

/// Submissions per second for `BATCH_SIZE` submissions in `elapsed_ms`.
pub open spec fn rate_of(elapsed_ms: nat) -> Option<nat> {
    if elapsed_ms == 0 {
        None
    } else {
        Some((BATCH_SIZE as nat * 1000) / elapsed_ms)
    }
}

pub fn batch_rate(elapsed_ms: u128) -> (r: Option<u128>)
    ensures
        r matches Some(v) ==> rate_of(elapsed_ms as nat) == Some(v as nat),
        r is None <==> rate_of(elapsed_ms as nat) is None,
{
    if elapsed_ms == 0 {
        None
    } else {
        Some((BATCH_SIZE as u128 * 1000) / elapsed_ms)
    }
}

/// The time of the last reporting point, shared by all submission workers;
/// the caller keeps it under one lock, so that reading it, computing a
/// report and moving it forward happen as one step.
pub struct ThroughputWindow {
    last_ms: u128,
}

impl ThroughputWindow {
    /// The time, in milliseconds, of the last reporting point.
    pub closed spec fn last(&self) -> u128 {
        self.last_ms
    }

    pub fn new(now_ms: u128) -> (r: Self)
        ensures
            r.last() == now_ms,
    {
        Self { last_ms: now_ms }
    }

    /// Accounts for the submission that found the shared counter at
    /// `previous`, at time `now_ms`. At a reporting point the window moves to
    /// `now_ms` and the report covers the time since the previous one (none,
    /// where the clock went back); elsewhere nothing changes.
    pub fn on_submission(&mut self, previous: usize, now_ms: u128) -> (r: Option<ThroughputReport>)
        ensures
            crosses_batch(previous as nat) ==> {
                &&& final(self).last() == now_ms
                &&& r matches Some(rep)
                &&& rep.transactions == BATCH_SIZE
                &&& rep.elapsed_ms == if now_ms >= old(self).last() {
                    now_ms - old(self).last()
                } else {
                    0
                }
                &&& (rep.rate matches Some(v) ==> rate_of(rep.elapsed_ms as nat) == Some(v as nat))
                &&& (rep.rate is None <==> rep.elapsed_ms == 0)
            },
            !crosses_batch(previous as nat) ==> r is None && final(self).last() == old(self).last(),
    {
        if !is_report_point(previous) {
            return None;
        }
        let elapsed_ms = now_ms.saturating_sub(self.last_ms);
        self.last_ms = now_ms;
        Some(ThroughputReport { transactions: BATCH_SIZE, elapsed_ms, rate: batch_rate(elapsed_ms) })
    }
}

/// The line printed for a report: `"<n> transactions were sent. Time: <ms>
/// ms. RPS: <rate>"`, with `unknown` for a rate over no elapsed time.
pub open spec fn report_text(rep: ThroughputReport) -> Seq<char> {
    decimal(rep.transactions as nat) + " transactions were sent. Time: "@ + decimal(
        rep.elapsed_ms as nat,
    ) + " ms. RPS: "@ + match rep.rate {
        Some(v) => decimal(v as nat),
        None => "unknown"@,
    }
}

pub fn report_line(rep: &ThroughputReport) -> (r: String)
    ensures
        r@ == report_text(*rep),
{
    let mut s = decimal_string(rep.transactions as u128);
    s.append(" transactions were sent. Time: ");
    let elapsed = decimal_string(rep.elapsed_ms);
    s.append(elapsed.as_str());
    s.append(" ms. RPS: ");
    match rep.rate {
        Some(v) => {
            let rate = decimal_string(v);
            s.append(rate.as_str());
        },
        None => {
            s.append("unknown");
        },
    }
    s
}

} // verus!

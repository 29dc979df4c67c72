//! Batching of queued records before they are handed to Kafka.

use vstd::prelude::*;

use crate::domain::{LogMessage, LogMessageView};
use crate::storage::log_views;
use tokio::sync::mpsc::Receiver;

verus! {

/// How many queued records the worker takes at most in one round.
pub const BATCH_LIMIT: usize = 10;

/// Milliseconds the worker pauses between two rounds.
pub const WORKER_PAUSE_MS: u64 = 500;

/// How many records the queue holds before senders wait.
pub const QUEUE_CAPACITY: usize = 1000;

#[verifier::external_type_specification]
#[verifier::external_body]
#[verifier::reject_recursive_types(T)]
pub struct ExReceiver<T>(Receiver<T>);

/// Every outcome that taking a record without waiting has given on this
/// receiver, oldest first: the record taken, or `None` where the queue was
/// found empty or closed. Only calls on the receiver itself add to it, and
/// the receiver has a single owner, so other tasks sending records do not
/// change it.
pub uninterp spec fn receipts(rx: Receiver<LogMessage>) -> Seq<Option<LogMessageView>>;

/// The receipts of records taken, in order, each as `Some` of the record.
pub open spec fn taken(logs: Seq<LogMessageView>) -> Seq<Option<LogMessageView>> {
    logs.map_values(|v: LogMessageView| Some(v))
}

/// The receipts of one batch: the records taken, followed by the `None`
/// that ended it when the queue ran empty before the batch was full.
pub open spec fn batch_receipts(logs: Seq<LogMessageView>, found_empty: bool) -> Seq<
    Option<LogMessageView>,
> {
    if found_empty {
        taken(logs).push(None)
    } else {
        taken(logs)
    }
}

/// Takes the next queued record without waiting, with tokio's
/// `Receiver::try_recv`; `None` when the queue is empty or closed. The
/// outcome is added to the receiver's receipts. Which record comes, if
/// any, depends on what other tasks have sent, so nothing more is stated of
/// it.
#[verifier::external_body]
fn try_receive(rx: &mut Receiver<LogMessage>) -> (r: Option<LogMessage>)
    ensures
        receipts(*final(rx)) == receipts(*old(rx)).push(
            match r {
                Some(l) => Some(l@),
                None => None,
            },
        ),
{
    rx.try_recv().ok()
}

/// Takes queued records, in the order they come, until the queue is found
/// empty or `BATCH_LIMIT` records are taken: the receiver's new receipts
/// are the records returned, followed by a `None` exactly when fewer than
/// `BATCH_LIMIT` came.
pub fn collect_batch(rx: &mut Receiver<LogMessage>) -> (r: Vec<LogMessage>)
    ensures
        r@.len() <= BATCH_LIMIT,
        receipts(*final(rx)) == receipts(*old(rx)) + batch_receipts(
            log_views(r@),
            r@.len() < BATCH_LIMIT,
        ),
{
    let ghost start = receipts(*rx);
    let mut batch: Vec<LogMessage> = Vec::new();
    let mut found_empty = false;
    while !found_empty && batch.len() < BATCH_LIMIT
        invariant
            batch@.len() <= BATCH_LIMIT,
            found_empty ==> batch@.len() < BATCH_LIMIT,
            receipts(*rx) == start + batch_receipts(log_views(batch@), found_empty),
        decreases BATCH_LIMIT - batch@.len() + (if found_empty { 0int } else { 1int }),
    {
        let ghost before = batch@;
        match try_receive(rx) {
            Some(log) => {
                batch.push(log);
                proof {
                    assert(log_views(batch@) =~= log_views(before).push(log@));
                    assert(taken(log_views(batch@)) =~= taken(log_views(before)).push(Some(log@)));
                }
            },
            None => {
                found_empty = true;
            },
        }
    }
    batch
}

} // verus!

//! The decisions of the background task that resends stored records.

use vstd::prelude::*;

use crate::domain::{LogMessage, LogMessageView};
use crate::storage::log_views;

verus! {

/// Seconds to wait when there is nothing to resend or Kafka is down.
pub const IDLE_WAIT_SECS: u64 = 30;

/// Seconds to wait after a round of resending.
pub const RESEND_PAUSE_SECS: u64 = 10;

/// What the resender does next.
#[derive(Clone, Copy, Debug, PartialEq, Eq, Structural)]
pub enum ResendPlan {
    /// Sleep this many seconds, then look again.
    WaitSecs(u64),
    /// Send every stored record.
    Resend,
}

/// Decides whether to resend: only when Kafka is available and records
/// are waiting; otherwise wait `IDLE_WAIT_SECS`.
pub fn plan_resend(kafka_available: bool, unsent_count: usize) -> (r: ResendPlan)
    ensures
        r == (if kafka_available && unsent_count > 0 {
            ResendPlan::Resend
        } else {
            ResendPlan::WaitSecs(IDLE_WAIT_SECS)
        }),
{
    if kafka_available && unsent_count > 0 {
        ResendPlan::Resend
    } else {
        ResendPlan::WaitSecs(IDLE_WAIT_SECS)
    }
}

/// The records whose delivery flag is set, in their order.
pub open spec fn delivered(logs: Seq<LogMessageView>, flags: Seq<bool>) -> Seq<LogMessageView>
    decreases logs.len(),
{
    if logs.len() == 0 {
        Seq::empty()
    } else if flags[logs.len() - 1] {
        delivered(logs.drop_last(), flags).push(logs.last())
    } else {
        delivered(logs.drop_last(), flags)
    }
}

/// The records that reached Kafka in a round: `outcomes[i]` tells
/// whether `logs[i]` was delivered.
pub fn successfully_sent(logs: &Vec<LogMessage>, outcomes: &Vec<bool>) -> (r: Vec<LogMessage>)
    requires
        outcomes@.len() == logs@.len(),
    ensures
        log_views(r@) == delivered(log_views(logs@), outcomes@),
{
    let mut sent: Vec<LogMessage> = Vec::new();
    let mut i: usize = 0;
    while i < logs.len()
        invariant
            i <= logs@.len(),
            outcomes@.len() == logs@.len(),
            log_views(sent@) == delivered(log_views(logs@).subrange(0, i as int), outcomes@),
        decreases logs@.len() - i,
    {
        let ghost prefix = log_views(logs@).subrange(0, i + 1);
        proof {
            assert(prefix.drop_last() =~= log_views(logs@).subrange(0, i as int));
            assert(prefix.last() == logs@[i as int]@);
        }
        if outcomes[i] {
            let copy = logs[i].clone();
            let ghost before = sent@;
            sent.push(copy);
            proof {
                assert(log_views(sent@) =~= log_views(before).push(logs@[i as int]@));
            }
        }
        i = i + 1;
    }
    proof {
        assert(log_views(logs@).subrange(0, logs@.len() as int) =~= log_views(logs@));
    }
    sent
}

} // verus!

//! Local keeping of records that could not be delivered: the file they go
//! to, and which of them stay after a resend.

use vstd::prelude::*;
use vstd::string::*;

use crate::domain::{LogMessage, LogMessageView};

verus! {

/// The models of a list of records.
pub open spec fn log_views(s: Seq<LogMessage>) -> Seq<LogMessageView> {
    s.map_values(|l: LogMessage| l@)
}

/// The records of `logs` that equal none of `sent`, in their order.
pub open spec fn unsent(logs: Seq<LogMessageView>, sent: Seq<LogMessageView>) -> Seq<LogMessageView>
    decreases logs.len(),
{
    if logs.len() == 0 {
        Seq::empty()
    } else if sent.contains(logs.last()) {
        unsent(logs.drop_last(), sent)
    } else {
        unsent(logs.drop_last(), sent).push(logs.last())
    }
}

/// Where undelivered records of one Kafka connection are kept.
#[derive(Debug)]
pub struct LocalLogStorage {
    file_path: String,
}

impl LocalLogStorage {
    /// The storage kept in the file at `file_path`.
    pub fn new(file_path: &str) -> (r: Self)
        ensures
            r.path()@ == file_path@,
    {
        LocalLogStorage { file_path: String::from_str(file_path) }
    }

    /// The path of the storage's file.
    pub closed spec fn path(&self) -> String {
        self.file_path
    }

    /// The path of the storage's file.
    pub fn file_path(&self) -> (r: &String)
        ensures
            *r == self.path(),
    {
        &self.file_path
    }

    /// Whether one of `sent` equals `log`.
    fn was_sent(log: &LogMessage, sent: &[LogMessage]) -> (r: bool)
        ensures
            r == log_views(sent@).contains(log@),
    {
        let mut i: usize = 0;
        while i < sent.len()
            invariant
                i <= sent@.len(),
                forall|j: int| 0 <= j < i ==> sent@[j]@ != log@,
            decreases sent@.len() - i,
        {
            if sent[i].same_as(log) {
                proof {
                    assert(log_views(sent@)[i as int] == log@);
                }
                return true;
            }
            i = i + 1;
        }
        proof {
            if log_views(sent@).contains(log@) {
                let k = choose|k: int| 0 <= k < log_views(sent@).len() && log_views(sent@)[k] == log@;
                assert(sent@[k]@ == log@);
            }
        }
        false
    }

    /// The records of `logs` that equal none of `successfully_sent`, in
    /// their order: what the storage keeps after those were delivered.
    pub fn retain_unsent(logs: &Vec<LogMessage>, successfully_sent: &[LogMessage]) -> (r: Vec<LogMessage>)
        ensures
            log_views(r@) == unsent(log_views(logs@), log_views(successfully_sent@)),
    {
        let ghost sent = log_views(successfully_sent@);
        let mut kept: Vec<LogMessage> = Vec::new();
        let mut i: usize = 0;
        while i < logs.len()
            invariant
                i <= logs@.len(),
                sent == log_views(successfully_sent@),
                log_views(kept@) == unsent(log_views(logs@).subrange(0, i as int), sent),
            decreases logs@.len() - i,
        {
            let ghost prefix = log_views(logs@).subrange(0, i + 1);
            proof {
                assert(prefix.drop_last() =~= log_views(logs@).subrange(0, i as int));
                assert(prefix.last() == logs@[i as int]@);
            }
            if !Self::was_sent(&logs[i], successfully_sent) {
                let copy = logs[i].clone();
                let ghost before = kept@;
                kept.push(copy);
                proof {
                    assert(log_views(kept@) =~= log_views(before).push(logs@[i as int]@));
                }
            }
            i = i + 1;
        }
        proof {
            assert(log_views(logs@).subrange(0, logs@.len() as int) =~= log_views(logs@));
        }
        kept
    }
}

} // verus!

//! The log of the keys that could not be moved.
//!
//! A key enters the log when its transfer ends as fatal, once, as a line of
//! its own, and at no other time. The log is only ever added to. The sink
//! gathers the lines; whoever owns the file takes them from it after each
//! entry and writes them out.

use vstd::prelude::*;
use crate::error::TransferError;
use crate::lines::{key_line, line_text, lines_text};
use crate::transfer::TransferOutcome;

verus! {

/// The lines that wait to be written to the failure log.
pub struct FailedTransfers {
    buffer: Vec<u8>,
}

/// What the end of one transfer adds to the failure log: the line of its key
/// where it ended as fatal, nothing where it did not.
pub open spec fn outcome_text(file_path: Seq<char>, outcome: TransferOutcome) -> Seq<u8> {
    if outcome is Fatal {
        line_text(file_path)
    } else {
        Seq::empty()
    }
}

/// The failure log after the transfers `done` have ended, given with their
/// keys in the order in which they ended.
pub open spec fn failure_log(done: Seq<(Seq<char>, TransferOutcome)>) -> Seq<u8>
    decreases done.len(),
{
    if done.len() == 0 {
        Seq::empty()
    } else {
        failure_log(done.drop_last()) + outcome_text(done.last().0, done.last().1)
    }
}

/// The keys of the transfers among `done` that ended as fatal, in the order
/// in which they ended.
pub open spec fn failed_keys(done: Seq<(Seq<char>, TransferOutcome)>) -> Seq<Seq<char>>
    decreases done.len(),
{
    if done.len() == 0 {
        Seq::empty()
    } else if done.last().1 is Fatal {
        failed_keys(done.drop_last()).push(done.last().0)
    } else {
        failed_keys(done.drop_last())
    }
}

/// How often `key` stands in `keys`.
pub open spec fn occurrences(keys: Seq<Seq<char>>, key: Seq<char>) -> nat
    decreases keys.len(),
{
    if keys.len() == 0 {
        0
    } else {
        occurrences(keys.drop_last(), key) + if keys.last() == key {
            1nat
        } else {
            0nat
        }
    }
}

/// How many of the transfers `done` had the key `key` and ended as fatal.
pub open spec fn fatal_ends(done: Seq<(Seq<char>, TransferOutcome)>, key: Seq<char>) -> nat
    decreases done.len(),
{
    if done.len() == 0 {
        0
    } else {
        fatal_ends(done.drop_last(), key) + if done.last().0 == key && done.last().1 is Fatal {
            1nat
        } else {
            0nat
        }
    }
}

/// The failure log is the list of the keys that failed, one on each line, in
/// the order in which their transfers ended.
pub proof fn failure_log_lists_failed_keys(done: Seq<(Seq<char>, TransferOutcome)>)
    ensures
        failure_log(done) == lines_text(failed_keys(done)),
    decreases done.len(),
{
    if done.len() > 0 {
        failure_log_lists_failed_keys(done.drop_last());
        if done.last().1 is Fatal {
            assert(failed_keys(done).drop_last() =~= failed_keys(done.drop_last()));
        } else {
            assert(failure_log(done.drop_last()) + Seq::<u8>::empty() =~= failure_log(
                done.drop_last(),
            ));
        }
    }
}

/// A key stands in the failure log once for each of its transfers that ended
/// as fatal, and not at all for one that ended otherwise.
pub proof fn failed_keys_count_fatal_ends(done: Seq<(Seq<char>, TransferOutcome)>, key: Seq<char>)
    ensures
        occurrences(failed_keys(done), key) == fatal_ends(done, key),
    decreases done.len(),
{
    if done.len() > 0 {
        failed_keys_count_fatal_ends(done.drop_last(), key);
        if done.last().1 is Fatal {
            assert(failed_keys(done).drop_last() =~= failed_keys(done.drop_last()));
        }
    }
}

/// A key that none of the transfers had is not counted.
proof fn fatal_ends_of_absent_key(done: Seq<(Seq<char>, TransferOutcome)>, key: Seq<char>)
    requires
        forall|i: int| 0 <= i < done.len() ==> (#[trigger] done[i]).0 != key,
    ensures
        fatal_ends(done, key) == 0,
    decreases done.len(),
{
    if done.len() > 0 {
        assert(done.last() == done[done.len() - 1]);
        assert forall|i: int| 0 <= i < done.drop_last().len() implies (#[trigger] done.drop_last()[i]).0
            != key by {
            assert(done.drop_last()[i] == done[i]);
        }
        fatal_ends_of_absent_key(done.drop_last(), key);
    }
}

/// Where every key is transferred once, the key of a transfer that ended as
/// fatal stands in the failure log exactly once, and the key of one that ended
/// otherwise does not stand there.
pub proof fn failed_key_logged_exactly_once(done: Seq<(Seq<char>, TransferOutcome)>, at: int)
    requires
        0 <= at < done.len(),
        forall|i: int, j: int|
            0 <= i < j < done.len() ==> (#[trigger] done[i]).0 != (#[trigger] done[j]).0,
    ensures
        done[at].1 is Fatal ==> occurrences(failed_keys(done), done[at].0) == 1,
        !(done[at].1 is Fatal) ==> occurrences(failed_keys(done), done[at].0) == 0,
    decreases done.len(),
{
    let key = done[at].0;
    let init = done.drop_last();
    failed_keys_count_fatal_ends(done, key);
    assert(done.last() == done[done.len() - 1]);
    assert forall|i: int| 0 <= i < init.len() implies #[trigger] init[i] == done[i] by {}
    if at == done.len() - 1 {
        assert forall|i: int| 0 <= i < init.len() implies (#[trigger] init[i]).0 != key by {
            assert(init[i] == done[i]);
        }
        fatal_ends_of_absent_key(init, key);
    } else {
        assert forall|i: int, j: int| 0 <= i < j < init.len() implies (#[trigger] init[i]).0 != (
        #[trigger] init[j]).0 by {
            assert(init[i] == done[i]);
            assert(init[j] == done[j]);
        }
        assert(init[at] == done[at]);
        failed_key_logged_exactly_once(init, at);
        failed_keys_count_fatal_ends(init, key);
    }
}

impl View for FailedTransfers {
    type V = Seq<u8>;

    /// The bytes that wait to be written.
    closed spec fn view(&self) -> Seq<u8> {
        self.buffer@
    }
}

impl FailedTransfers {
    /// A sink with nothing to write.
    pub fn new() -> (out: Self)
        ensures
            out@ == Seq::<u8>::empty(),
    {
        FailedTransfers { buffer: Vec::new() }
    }

    /// Adds the line of the key `file_url` to what waits to be written.
    pub fn add_url_to_failed(&mut self, file_url: String) -> (out: Result<(), TransferError>)
        ensures
            out is Ok,
            final(self)@ == old(self)@ + line_text(file_url@),
    {
        let mut bytes = key_line(file_url.as_str());
        self.buffer.append(&mut bytes);
        Ok(())
    }

    /// Takes note of how the transfer of `file_path` ended: the key is logged
    /// where it ended as fatal, and nothing is logged where it did not. The
    /// answer says whether the key was logged.
    pub fn record_outcome(&mut self, file_path: String, outcome: &TransferOutcome) -> (out: bool)
        ensures
            out == (*outcome is Fatal),
            final(self)@ == old(self)@ + outcome_text(file_path@, *outcome),
    {
        match outcome {
            TransferOutcome::Fatal(_) => {
                let _ = self.add_url_to_failed(file_path);
                true
            },
            _ => {
                assert(self@ + Seq::<u8>::empty() =~= self@);
                false
            },
        }
    }

    /// Hands over the bytes that wait to be written, to be written and flushed
    /// at once. Nothing waits after that.
    pub fn take_pending(&mut self) -> (out: Vec<u8>)
        ensures
            out@ == old(self)@,
            final(self)@ == Seq::<u8>::empty(),
    {
        let mut out: Vec<u8> = Vec::new();
        out.append(&mut self.buffer);
        out
    }
}

} // verus!

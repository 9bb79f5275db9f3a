//! The order and the number of the transfers that run at a time.
//!
//! The queue hands out the keys one by one, in the order of the spool, and
//! never lets more transfers run at a time than its limit allows. It does not
//! run anything itself: whoever runs the transfers asks it for the next key
//! whenever one may start, and tells it whenever one has ended. Which one ends
//! first is not the queue's concern, and a transfer that failed frees its
//! place like any other.

use vstd::prelude::*;

verus! {

/// How many transfers run at a time.
pub const CONCURRENCY: usize = 10;

/// The keys to transfer, with how many have been started and how many are
/// running.
pub struct TransferQueue {
    keys: Vec<String>,
    started: usize,
    active: usize,
    limit: usize,
}

/// The queue as the rules see it.
pub struct QueueModel {
    /// The keys, in the order of the spool.
    pub keys: Seq<String>,
    /// How many of them have been handed out: the first so many.
    pub started: nat,
    /// How many transfers are running.
    pub active: nat,
    /// How many may run at a time.
    pub limit: nat,
}

/// One call on the queue.
pub enum QueueOp {
    /// The next key is asked for.
    Start,
    /// A transfer is reported as ended.
    Finish,
}

/// What holds of every queue: no more transfers run than the limit allows,
/// and none that was not started.
pub open spec fn queue_wf(m: QueueModel) -> bool {
    &&& m.active <= m.limit
    &&& m.active <= m.started
    &&& m.started <= m.keys.len()
}

/// Whether the queue `m` hands out a key when asked: a key is left, and a
/// place is free.
pub open spec fn may_start(m: QueueModel) -> bool {
    m.started < m.keys.len() && m.active < m.limit
}

/// Whether all is done: every key has been handed out, and no transfer runs.
pub open spec fn is_done(m: QueueModel) -> bool {
    m.started == m.keys.len() && m.active == 0
}

/// The queue after one call.
pub open spec fn after_op(m: QueueModel, op: QueueOp) -> QueueModel {
    match op {
        QueueOp::Start => if may_start(m) {
            QueueModel { started: m.started + 1, active: m.active + 1, ..m }
        } else {
            m
        },
        QueueOp::Finish => if m.active > 0 {
            QueueModel { active: (m.active - 1) as nat, ..m }
        } else {
            m
        },
    }
}

/// The keys that one call hands out: the next key, or none.
pub open spec fn handed_out(m: QueueModel, op: QueueOp) -> Seq<String> {
    match op {
        QueueOp::Start => if may_start(m) {
            seq![m.keys[m.started as int]]
        } else {
            Seq::empty()
        },
        QueueOp::Finish => Seq::empty(),
    }
}

/// The queue after a series of calls.
pub open spec fn after_ops(m: QueueModel, ops: Seq<QueueOp>) -> QueueModel
    decreases ops.len(),
{
    if ops.len() == 0 {
        m
    } else {
        after_op(after_ops(m, ops.drop_last()), ops.last())
    }
}

/// The keys that a series of calls hands out, in the order in which they are
/// handed out.
pub open spec fn all_handed_out(m: QueueModel, ops: Seq<QueueOp>) -> Seq<String>
    decreases ops.len(),
{
    if ops.len() == 0 {
        Seq::empty()
    } else {
        all_handed_out(m, ops.drop_last()) + handed_out(
            after_ops(m, ops.drop_last()),
            ops.last(),
        )
    }
}

/// A queue in which nothing has been started.
pub open spec fn fresh_queue(keys: Seq<String>, limit: nat) -> QueueModel {
    QueueModel { keys, started: 0, active: 0, limit }
}

/// Whatever is asked of the queue and in whatever order, the number of
/// transfers that run never passes the limit.
pub proof fn never_over_limit(m: QueueModel, ops: Seq<QueueOp>)
    requires
        queue_wf(m),
    ensures
        queue_wf(after_ops(m, ops)),
        after_ops(m, ops).active <= m.limit,
        after_ops(m, ops).keys == m.keys,
        after_ops(m, ops).limit == m.limit,
    decreases ops.len(),
{
    if ops.len() > 0 {
        never_over_limit(m, ops.drop_last());
    }
}

/// Whatever is asked of the queue and in whatever order, the keys come out in
/// the order of the spool, each position once: the keys handed out so far are
/// the keys up to the number started, less those that had been handed out
/// before.
pub proof fn keys_handed_out_in_order(m: QueueModel, ops: Seq<QueueOp>)
    requires
        queue_wf(m),
    ensures
        m.started <= after_ops(m, ops).started <= m.keys.len(),
        all_handed_out(m, ops) == m.keys.subrange(
            m.started as int,
            after_ops(m, ops).started as int,
        ),
    decreases ops.len(),
{
    if ops.len() == 0 {
        assert(m.keys.subrange(m.started as int, m.started as int) =~= Seq::<String>::empty());
    } else {
        let before = after_ops(m, ops.drop_last());
        never_over_limit(m, ops.drop_last());
        keys_handed_out_in_order(m, ops.drop_last());
        assert(all_handed_out(m, ops) =~= m.keys.subrange(
            m.started as int,
            after_ops(m, ops).started as int,
        ));
    }
}

/// Once all is done, every key has been handed out exactly once: the keys
/// handed out since the queue was made are the keys of the spool, one for one.
pub proof fn every_key_handed_out_once(keys: Seq<String>, limit: nat, ops: Seq<QueueOp>)
    requires
        is_done(after_ops(fresh_queue(keys, limit), ops)),
    ensures
        all_handed_out(fresh_queue(keys, limit), ops) == keys,
{
    let m = fresh_queue(keys, limit);
    never_over_limit(m, ops);
    keys_handed_out_in_order(m, ops);
    assert(keys.subrange(0, keys.len() as int) =~= keys);
}

/// While keys are left or transfers run, and the limit is not zero, there is
/// always something to do: either a key can be handed out or a transfer is
/// running and will end.
pub proof fn never_stuck(m: QueueModel)
    requires
        queue_wf(m),
        m.limit > 0,
        !is_done(m),
    ensures
        may_start(m) || m.active > 0,
{
}

impl View for TransferQueue {
    type V = QueueModel;

    closed spec fn view(&self) -> QueueModel {
        QueueModel {
            keys: self.keys@,
            started: self.started as nat,
            active: self.active as nat,
            limit: self.limit as nat,
        }
    }
}

impl TransferQueue {
    /// What holds of every queue.
    pub open spec fn wf(&self) -> bool {
        queue_wf(self@)
    }

    /// A queue that hands out `keys` in their order and lets `limit`
    /// transfers run at a time.
    pub fn new(keys: Vec<String>, limit: usize) -> (out: Self)
        ensures
            out.wf(),
            out@ == fresh_queue(keys@, limit as nat),
    {
        TransferQueue { keys, started: 0, active: 0, limit }
    }

    /// Asks for the next key. It is handed out, and counts as running from
    /// then on, where a key is left and fewer transfers run than the limit
    /// allows. Otherwise the answer is `None` and nothing changes.
    pub fn start_next(&mut self) -> (out: Option<String>)
        requires
            old(self).wf(),
        ensures
            final(self).wf(),
            final(self)@ == after_op(old(self)@, QueueOp::Start),
            may_start(old(self)@) ==> out == Some(old(self)@.keys[old(self)@.started as int]),
            !may_start(old(self)@) ==> out is None,
    {
        if self.started < self.keys.len() && self.active < self.limit {
            let key = self.keys[self.started].clone();
            self.started = self.started + 1;
            self.active = self.active + 1;
            Some(key)
        } else {
            None
        }
    }

    /// Reports that a transfer has ended, however it ended. Its place is free
    /// again. The answer says whether a transfer was running at all; where
    /// none was, nothing changes.
    pub fn finish_one(&mut self) -> (out: bool)
        requires
            old(self).wf(),
        ensures
            final(self).wf(),
            final(self)@ == after_op(old(self)@, QueueOp::Finish),
            out == (old(self)@.active > 0),
    {
        if self.active > 0 {
            self.active = self.active - 1;
            true
        } else {
            false
        }
    }

    /// Whether every key has been handed out and no transfer runs.
    pub fn is_finished(&self) -> (out: bool)
        ensures
            out == is_done(self@),
    {
        self.started == self.keys.len() && self.active == 0
    }

    /// How many transfers are running.
    pub fn active(&self) -> (out: usize)
        ensures
            out == self@.active,
    {
        self.active
    }

    /// How many keys have been handed out.
    pub fn started(&self) -> (out: usize)
        ensures
            out == self@.started,
    {
        self.started
    }

    /// How many transfers may run at a time.
    pub fn limit(&self) -> (out: usize)
        ensures
            out == self@.limit,
    {
        self.limit
    }
}

} // verus!

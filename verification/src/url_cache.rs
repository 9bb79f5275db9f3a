//! The pool of idle upload endpoints.
//!
//! The pool is a cache with overflow, not a limiter: taking from an empty
//! pool does not wait, it tells the caller to obtain a fresh endpoint from the
//! destination. Taking and returning are constant-time steps on plain data, so
//! a caller that shares the pool holds its lock for one such step only and
//! obtains fresh endpoints with the lock released.

use vstd::prelude::*;
use crate::backblaze::{asks_for_upload_url, ApiRequest, BlazeCache, UploadUrlResponse};
use crate::error::TransferError;

verus! {

/// How many endpoints are obtained before the first transfer starts.
pub const PREFILL_COUNT: usize = 20;

/// The idle upload endpoints, the one returned last on top.
pub struct BlazeUploadUrlCache {
    urls: Vec<UploadUrlResponse>,
}

/// One use of the pool by a transfer.
pub enum PoolOp {
    /// An endpoint is asked for.
    Lease,
    /// An endpoint is handed back.
    Release(UploadUrlResponse),
}

/// The idle endpoints after one is asked for: the top one leaves, and an empty
/// pool stays empty.
pub open spec fn after_lease(idle: Seq<UploadUrlResponse>) -> Seq<UploadUrlResponse> {
    if idle.len() > 0 {
        idle.drop_last()
    } else {
        idle
    }
}

/// The idle endpoints after `url` is handed back: it lies on top.
pub open spec fn after_release(idle: Seq<UploadUrlResponse>, url: UploadUrlResponse) -> Seq<
    UploadUrlResponse,
> {
    idle.push(url)
}

/// The idle endpoints after a series of uses, starting from `idle`.
pub open spec fn after_ops(idle: Seq<UploadUrlResponse>, ops: Seq<PoolOp>) -> Seq<
    UploadUrlResponse,
>
    decreases ops.len(),
{
    if ops.len() == 0 {
        idle
    } else {
        let before = after_ops(idle, ops.drop_last());
        match ops.last() {
            PoolOp::Lease => after_lease(before),
            PoolOp::Release(url) => after_release(before, url),
        }
    }
}

/// How many endpoints a series of uses hands back.
pub open spec fn releases(ops: Seq<PoolOp>) -> nat
    decreases ops.len(),
{
    if ops.len() == 0 {
        0
    } else {
        releases(ops.drop_last()) + match ops.last() {
            PoolOp::Lease => 0nat,
            PoolOp::Release(_) => 1nat,
        }
    }
}

/// How many requests of a series of uses, starting from `idle`, find an idle
/// endpoint.
pub open spec fn leases_served(idle: Seq<UploadUrlResponse>, ops: Seq<PoolOp>) -> nat
    decreases ops.len(),
{
    if ops.len() == 0 {
        0
    } else {
        leases_served(idle, ops.drop_last()) + match ops.last() {
            PoolOp::Lease => if after_ops(idle, ops.drop_last()).len() > 0 {
                1nat
            } else {
                0nat
            },
            PoolOp::Release(_) => 0nat,
        }
    }
}

/// Whatever the series of uses, the pool ends with as many idle endpoints as
/// it began with, plus those handed back, minus the requests that found one
/// idle. A request on an empty pool takes nothing from it.
pub proof fn idle_count_after_ops(idle: Seq<UploadUrlResponse>, ops: Seq<PoolOp>)
    ensures
        after_ops(idle, ops).len() == idle.len() + releases(ops) - leases_served(idle, ops),
        leases_served(idle, ops) <= idle.len() + releases(ops),
    decreases ops.len(),
{
    if ops.len() > 0 {
        idle_count_after_ops(idle, ops.drop_last());
    }
}

impl View for BlazeUploadUrlCache {
    type V = Seq<UploadUrlResponse>;

    closed spec fn view(&self) -> Seq<UploadUrlResponse> {
        self.urls@
    }
}

impl BlazeUploadUrlCache {
    /// A pool with no idle endpoint.
    pub fn new() -> (out: Self)
        ensures
            out@ == Seq::<UploadUrlResponse>::empty(),
    {
        BlazeUploadUrlCache { urls: Vec::new() }
    }

    /// The number of idle endpoints.
    pub fn idle(&self) -> (out: usize)
        ensures
            out == self@.len(),
    {
        self.urls.len()
    }

    /// Whether the pool still lacks endpoints of its initial supply.
    pub fn needs_prefill(&self) -> (out: bool)
        ensures
            out == (self@.len() < PREFILL_COUNT),
    {
        self.urls.len() < PREFILL_COUNT
    }

    /// Takes in the answer to one request for a fresh endpoint while the
    /// initial supply is built. An endpoint joins the idle ones; a failure is
    /// handed back, for without its initial supply the run does not start.
    pub fn prefill(&mut self, minted: Result<UploadUrlResponse, TransferError>) -> (out: Result<
        (),
        TransferError,
    >)
        ensures
            match minted {
                Ok(url) => out is Ok && final(self)@ == old(self)@.push(url),
                Err(e) => out == Err::<(), TransferError>(e) && final(self)@ == old(self)@,
            },
    {
        match minted {
            Ok(url) => {
                self.urls.push(url);
                Ok(())
            },
            Err(e) => Err(e),
        }
    }

    /// The request for a fresh endpoint in the bucket `bucket_id`, under the
    /// authorization `blaze`. There always is one.
    pub fn new_upload_url(blaze: &BlazeCache, bucket_id: &str) -> (out: Result<
        ApiRequest,
        TransferError,
    >)
        ensures
            out matches Ok(request) && asks_for_upload_url(request, blaze.auth, bucket_id@),
    {
        blaze.auth.get_upload_url(bucket_id)
    }

    /// Asks for an endpoint. The one on top of the idle ones is handed out;
    /// with none idle the answer is `None` at once, and the caller obtains a
    /// fresh endpoint from the destination.
    pub fn take_upload_url(&mut self) -> (out: Option<UploadUrlResponse>)
        ensures
            final(self)@ == after_lease(old(self)@),
            old(self)@.len() > 0 ==> out == Some(old(self)@.last()),
            old(self)@.len() == 0 ==> out is None,
    {
        self.urls.pop()
    }

    /// Hands an endpoint back. It is taken as it is, with no test of whether
    /// the destination still honours it, and lies on top of the idle ones.
    pub fn return_upload_url(&mut self, url: UploadUrlResponse) -> (out: Result<(), TransferError>)
        ensures
            out is Ok,
            final(self)@ == after_release(old(self)@, url),
    {
        self.urls.push(url);
        Ok(())
    }
}

} // verus!

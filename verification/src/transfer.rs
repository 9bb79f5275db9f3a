//! The transfer of one object, as a state machine.
//!
//! A transfer never waits and never touches the network. It is told what
//! happened (an event) and answers what to do next (an action); whoever runs
//! it carries the action out and comes back with the result. The only shared
//! data it touches is the pool of upload endpoints, for one constant-time step
//! at a time.

use vstd::prelude::*;
use crate::backblaze::{upload_headers, BlazeCache, UploadRequest, UploadUrlResponse};
use crate::error::TransferError;
use crate::url_cache::{after_lease, after_release, BlazeUploadUrlCache};

verus! {

/// An object is taken only where it has fewer bytes than this: the digest of
/// a longer one cannot be taken.
pub const IMAGE_LIMIT: u64 = 0x2000_0000_0000_0000;

/// What a transfer is waiting for.
#[derive(Debug, Clone, Copy, PartialEq, Eq, Structural)]
pub enum TransferState {
    /// Nothing has been asked for yet.
    Start,
    /// The object's bytes have been asked for.
    Downloading,
    /// The pool was empty: a fresh endpoint has been asked for.
    Leasing,
    /// The first upload is under way.
    Uploading,
    /// The first upload failed in a way that a second may cure: a fresh
    /// endpoint has been asked for.
    RetryMinting,
    /// The second upload is under way.
    Retrying,
    /// The transfer is over.
    Finished,
}

/// What happened since the last action.
#[derive(Debug)]
pub enum TransferEvent {
    /// The transfer is to begin.
    Begin,
    /// The source answered: the object's bytes, no body at all, or a failure.
    Downloaded(Result<Option<Vec<u8>>, TransferError>),
    /// The destination answered a request for a fresh endpoint.
    UrlMinted(Result<UploadUrlResponse, TransferError>),
    /// The destination answered an upload.
    Uploaded(Result<(), TransferError>),
}

/// How a transfer ended.
#[derive(Debug)]
pub enum TransferOutcome {
    /// The object is at the destination.
    Success,
    /// The source had no body for the key: nothing was sent, and this is no
    /// failure.
    Skipped,
    /// The object could not be moved. Its key belongs in the failure log.
    Fatal(TransferError),
}

/// What is to be done next for a transfer.
#[derive(Debug)]
pub enum TransferAction {
    /// Fetch the whole object with this key from the source.
    Download(String),
    /// Obtain a fresh upload endpoint from the destination.
    MintUrl,
    /// Send the object's bytes with these headers.
    Upload(UploadRequest),
    /// Nothing more: the transfer ended in this way.
    Finish(TransferOutcome),
}

/// One transfer: the key, the authorization it works under, and how far it
/// has come.
pub struct TransferToBlaze {
    file_path: String,
    blaze: BlazeCache,
    state: TransferState,
    image: Vec<u8>,
    upload_url: Option<UploadUrlResponse>,
    attempts: u8,
}

/// A transfer as the rules see it.
pub struct TransferModel {
    /// The key of the object.
    pub file_path: Seq<char>,
    pub state: TransferState,
    /// The object's bytes, once they are there.
    pub image: Seq<u8>,
    /// The endpoint that the upload under way uses.
    pub upload_url: Option<UploadUrlResponse>,
    /// How many uploads have been started.
    pub attempts: nat,
}

/// What holds of every transfer: an endpoint is held exactly while an upload
/// is under way, and the number of uploads started goes with the state. No
/// transfer starts more than two.
pub open spec fn model_wf(m: TransferModel) -> bool {
    &&& m.upload_url is Some <==> (m.state == TransferState::Uploading || m.state
        == TransferState::Retrying)
    &&& m.image.len() < IMAGE_LIMIT
    &&& match m.state {
        TransferState::Start | TransferState::Downloading | TransferState::Leasing => m.attempts
            == 0,
        TransferState::Uploading | TransferState::RetryMinting => m.attempts == 1,
        TransferState::Retrying => m.attempts == 2,
        TransferState::Finished => m.attempts <= 2,
    }
}

/// Whether `event` is one that a transfer in the state of `m` waits for. An
/// object of `IMAGE_LIMIT` bytes or more is not taken.
pub open spec fn accepts(m: TransferModel, event: TransferEvent) -> bool {
    match (m.state, event) {
        (TransferState::Start, TransferEvent::Begin) => true,
        (TransferState::Downloading, TransferEvent::Downloaded(r)) => r matches Ok(Some(body))
            ==> body@.len() < IMAGE_LIMIT,
        (TransferState::Leasing, TransferEvent::UrlMinted(_)) => true,
        (TransferState::RetryMinting, TransferEvent::UrlMinted(_)) => true,
        (TransferState::Uploading, TransferEvent::Uploaded(_)) => true,
        (TransferState::Retrying, TransferEvent::Uploaded(_)) => true,
        _ => false,
    }
}

/// The transfer `m` ended, with no endpoint in hand.
pub open spec fn finished(m: TransferModel) -> TransferModel {
    TransferModel { state: TransferState::Finished, upload_url: None, ..m }
}

/// The transfer `m` with an upload started on the endpoint `url`.
pub open spec fn uploading(m: TransferModel, state: TransferState, url: UploadUrlResponse) -> TransferModel {
    TransferModel { state, upload_url: Some(url), attempts: m.attempts + 1, ..m }
}

/// The transfer after `event`, where `idle` are the pool's idle endpoints
/// before it.
pub open spec fn next_state(
    m: TransferModel,
    idle: Seq<UploadUrlResponse>,
    event: TransferEvent,
) -> TransferModel {
    match (m.state, event) {
        (TransferState::Start, TransferEvent::Begin) => TransferModel {
            state: TransferState::Downloading,
            ..m
        },
        (TransferState::Downloading, TransferEvent::Downloaded(Ok(Some(body)))) => {
            let got = TransferModel { image: body@, ..m };
            if idle.len() > 0 {
                uploading(got, TransferState::Uploading, idle.last())
            } else {
                TransferModel { state: TransferState::Leasing, ..got }
            }
        },
        (TransferState::Leasing, TransferEvent::UrlMinted(Ok(url))) => uploading(
            m,
            TransferState::Uploading,
            url,
        ),
        (TransferState::Uploading, TransferEvent::Uploaded(Err(e))) => if e.is_retryable() {
            TransferModel { state: TransferState::RetryMinting, upload_url: None, ..m }
        } else {
            finished(m)
        },
        (TransferState::RetryMinting, TransferEvent::UrlMinted(Ok(url))) => uploading(
            m,
            TransferState::Retrying,
            url,
        ),
        _ => finished(m),
    }
}

/// The pool's idle endpoints after `event`. A transfer takes the top one when
/// the object's bytes have come, and hands back the endpoint of an upload that
/// succeeded. Nothing else touches the pool: the endpoint of a failed upload
/// is given up, and the endpoint of a second upload is never taken from the
/// pool.
pub open spec fn next_idle(
    m: TransferModel,
    idle: Seq<UploadUrlResponse>,
    event: TransferEvent,
) -> Seq<UploadUrlResponse> {
    match (m.state, event) {
        (TransferState::Downloading, TransferEvent::Downloaded(Ok(Some(_)))) => after_lease(idle),
        (TransferState::Uploading, TransferEvent::Uploaded(Ok(_))) => after_release(
            idle,
            m.upload_url->0,
        ),
        (TransferState::Retrying, TransferEvent::Uploaded(Ok(_))) => after_release(
            idle,
            m.upload_url->0,
        ),
        _ => idle,
    }
}

/// Whether `action` is the answer to `event`.
pub open spec fn answers(
    m: TransferModel,
    idle: Seq<UploadUrlResponse>,
    event: TransferEvent,
    action: TransferAction,
) -> bool {
    let after = next_state(m, idle, event);
    match after.state {
        TransferState::Downloading => action matches TransferAction::Download(key) && key@
            == m.file_path,
        TransferState::Leasing | TransferState::RetryMinting => action == TransferAction::MintUrl,
        TransferState::Uploading | TransferState::Retrying => action matches TransferAction::Upload(
            request,
        ) && upload_headers(request, after.upload_url->0, after.file_path, after.image),
        _ => action == TransferAction::Finish(outcome_of(event)),
    }
}

/// How a transfer ends on `event`, where it ends on it: with the failure that
/// the event brings, as skipped where the source had no body, else as done.
pub open spec fn outcome_of(event: TransferEvent) -> TransferOutcome {
    match event {
        TransferEvent::Downloaded(Err(e)) => TransferOutcome::Fatal(e),
        TransferEvent::Downloaded(Ok(None)) => TransferOutcome::Skipped,
        TransferEvent::UrlMinted(Err(e)) => TransferOutcome::Fatal(e),
        TransferEvent::Uploaded(Err(e)) => TransferOutcome::Fatal(e),
        _ => TransferOutcome::Success,
    }
}

/// The transfer and the pool after a series of events, each of which the
/// transfer waits for when it comes.
pub open spec fn after_events(
    m: TransferModel,
    idle: Seq<UploadUrlResponse>,
    events: Seq<TransferEvent>,
) -> (TransferModel, Seq<UploadUrlResponse>)
    decreases events.len(),
{
    if events.len() == 0 {
        (m, idle)
    } else {
        let before = after_events(m, idle, events.drop_last());
        (
            next_state(before.0, before.1, events.last()),
            next_idle(before.0, before.1, events.last()),
        )
    }
}

/// Whether the transfer waits for each event of a series when it comes.
pub open spec fn all_accepted(
    m: TransferModel,
    idle: Seq<UploadUrlResponse>,
    events: Seq<TransferEvent>,
) -> bool
    decreases events.len(),
{
    events.len() > 0 ==> all_accepted(m, idle, events.drop_last()) && accepts(
        after_events(m, idle, events.drop_last()).0,
        events.last(),
    )
}

/// A transfer that is over waits for nothing.
pub proof fn finished_accepts_nothing(m: TransferModel, event: TransferEvent)
    requires
        m.state == TransferState::Finished,
    ensures
        !accepts(m, event),
{
}

/// One step keeps what holds of every transfer, and starts at most one
/// upload: exactly one where the transfer goes on to upload, none otherwise.
pub proof fn step_keeps_wf(m: TransferModel, idle: Seq<UploadUrlResponse>, event: TransferEvent)
    requires
        model_wf(m),
        accepts(m, event),
    ensures
        model_wf(next_state(m, idle, event)),
        next_state(m, idle, event).file_path == m.file_path,
        next_state(m, idle, event).attempts == m.attempts + if next_state(m, idle, event).upload_url
            is Some {
            1nat
        } else {
            0nat
        },
{
}

/// Whatever happens to a transfer, it starts no more than two uploads.
pub proof fn at_most_two_uploads(
    m: TransferModel,
    idle: Seq<UploadUrlResponse>,
    events: Seq<TransferEvent>,
)
    requires
        model_wf(m),
        all_accepted(m, idle, events),
    ensures
        model_wf(after_events(m, idle, events).0),
        after_events(m, idle, events).0.attempts <= 2,
    decreases events.len(),
{
    if events.len() > 0 {
        at_most_two_uploads(m, idle, events.drop_last());
        let before = after_events(m, idle, events.drop_last());
        step_keeps_wf(before.0, before.1, events.last());
    }
}

/// A second upload is started only after the first failed with a status of
/// 401 or 503: only such a failure makes a transfer ask for the endpoint of a
/// second upload, and only the answer to that request starts one.
pub proof fn second_upload_only_after_retryable_failure(
    m: TransferModel,
    idle: Seq<UploadUrlResponse>,
    event: TransferEvent,
)
    requires
        model_wf(m),
        accepts(m, event),
    ensures
        next_state(m, idle, event).state == TransferState::Retrying ==> m.state
            == TransferState::RetryMinting && event is UrlMinted,
        next_state(m, idle, event).state == TransferState::RetryMinting ==> m.state
            == TransferState::Uploading && (event matches TransferEvent::Uploaded(Err(e))
            && e.is_retryable()),
{
}

/// A first upload that fails with a status of 401 or 503 is retried exactly
/// once, on a fresh endpoint. The transfer asks for a fresh endpoint and gives
/// up the one that failed; the pool is not touched. The endpoint that comes is
/// the one that the second upload uses. When the second upload has been
/// answered the transfer is over, whatever the answer: as done, with the fresh
/// endpoint handed to the pool, or as fatal with the failure that came.
pub proof fn retryable_failure_retries_once(
    m: TransferModel,
    idle: Seq<UploadUrlResponse>,
    e: TransferError,
    fresh: UploadUrlResponse,
    second: Result<(), TransferError>,
)
    requires
        model_wf(m),
        m.state == TransferState::Uploading,
        e.is_retryable(),
    ensures
        ({
            let failed = TransferEvent::Uploaded(Err(e));
            let m1 = next_state(m, idle, failed);
            let minted = TransferEvent::UrlMinted(Ok(fresh));
            let m2 = next_state(m1, idle, minted);
            let answered = TransferEvent::Uploaded(second);
            let m3 = next_state(m2, idle, answered);
            &&& m1.state == TransferState::RetryMinting
            &&& m1.upload_url is None
            &&& m1.attempts == 1
            &&& next_idle(m, idle, failed) == idle
            &&& answers(m, idle, failed, TransferAction::MintUrl)
            &&& m2.state == TransferState::Retrying
            &&& m2.upload_url == Some(fresh)
            &&& m2.attempts == 2
            &&& next_idle(m1, idle, minted) == idle
            &&& m3.state == TransferState::Finished
            &&& m3.attempts == 2
            &&& match second {
                Ok(_) => next_idle(m2, idle, answered) == idle.push(fresh) && answers(
                    m2,
                    idle,
                    answered,
                    TransferAction::Finish(TransferOutcome::Success),
                ),
                Err(e2) => next_idle(m2, idle, answered) == idle && answers(
                    m2,
                    idle,
                    answered,
                    TransferAction::Finish(TransferOutcome::Fatal(e2)),
                ),
            }
        }),
{
}

/// An upload that fails in any other way is not retried: the transfer is over
/// at once, as fatal with that failure, having started no further upload, and
/// the pool is not touched.
pub proof fn other_failure_is_fatal(
    m: TransferModel,
    idle: Seq<UploadUrlResponse>,
    e: TransferError,
)
    requires
        model_wf(m),
        m.state == TransferState::Uploading,
        !e.is_retryable(),
    ensures
        ({
            let failed = TransferEvent::Uploaded(Err(e));
            let m1 = next_state(m, idle, failed);
            &&& m1.state == TransferState::Finished
            &&& m1.attempts == m.attempts
            &&& m1.attempts == 1
            &&& next_idle(m, idle, failed) == idle
            &&& answers(m, idle, failed, TransferAction::Finish(TransferOutcome::Fatal(e)))
        }),
{
}

/// The endpoints that a transfer and the pool hold between them.
pub open spec fn endpoints_held(m: TransferModel, idle: Seq<UploadUrlResponse>) -> nat {
    idle.len() + if m.upload_url is Some {
        1nat
    } else {
        0nat
    }
}

/// No step makes an endpoint out of nothing: a transfer and the pool hold
/// more between them after a step only where the step brought a fresh
/// endpoint, and then one more.
pub proof fn endpoints_come_from_minting(
    m: TransferModel,
    idle: Seq<UploadUrlResponse>,
    event: TransferEvent,
)
    requires
        model_wf(m),
        accepts(m, event),
    ensures
        endpoints_held(next_state(m, idle, event), next_idle(m, idle, event)) <= endpoints_held(
            m,
            idle,
        ) + if event matches TransferEvent::UrlMinted(Ok(_)) {
            1nat
        } else {
            0nat
        },
{
}

/// An empty pool holds no transfer up: the transfer asks for a fresh endpoint
/// at once, and the endpoint that comes is the one that its upload uses.
pub proof fn empty_pool_never_blocks(m: TransferModel, body: Vec<u8>, fresh: UploadUrlResponse)
    requires
        model_wf(m),
        m.state == TransferState::Downloading,
        body@.len() < IMAGE_LIMIT,
    ensures
        ({
            let idle = Seq::<UploadUrlResponse>::empty();
            let got = TransferEvent::Downloaded(Ok(Some(body)));
            let m1 = next_state(m, idle, got);
            let minted = TransferEvent::UrlMinted(Ok(fresh));
            let m2 = next_state(m1, idle, minted);
            &&& accepts(m, got)
            &&& m1.state == TransferState::Leasing
            &&& answers(m, idle, got, TransferAction::MintUrl)
            &&& next_idle(m, idle, got) == idle
            &&& accepts(m1, minted)
            &&& m2.state == TransferState::Uploading
            &&& m2.upload_url == Some(fresh)
            &&& m2.image == body@
            &&& m2.attempts == 1
        }),
{
}

impl View for TransferToBlaze {
    type V = TransferModel;

    closed spec fn view(&self) -> TransferModel {
        TransferModel {
            file_path: self.file_path@,
            state: self.state,
            image: self.image@,
            upload_url: self.upload_url,
            attempts: self.attempts as nat,
        }
    }
}

impl TransferToBlaze {
    /// What holds of every transfer.
    pub open spec fn wf(&self) -> bool {
        model_wf(self@)
    }

    /// The authorization that the transfer works under.
    pub closed spec fn spec_blaze(&self) -> BlazeCache {
        self.blaze
    }

    /// A transfer of the object `file_path`, not yet begun.
    pub fn new(file_path: String, blaze: BlazeCache) -> (out: Self)
        ensures
            out.wf(),
            out.spec_blaze() == blaze,
            out@ == (TransferModel {
                file_path: file_path@,
                state: TransferState::Start,
                image: Seq::<u8>::empty(),
                upload_url: None,
                attempts: 0,
            }),
    {
        TransferToBlaze {
            file_path,
            blaze,
            state: TransferState::Start,
            image: Vec::new(),
            upload_url: None,
            attempts: 0,
        }
    }

    /// What the transfer is waiting for.
    pub fn state(&self) -> (out: TransferState)
        ensures
            out == self@.state,
    {
        self.state
    }

    /// The key of the object.
    pub fn file_path(&self) -> (out: &String)
        ensures
            out@ == self@.file_path,
    {
        &self.file_path
    }

    /// The object's bytes: what an upload sends as its body.
    pub fn image(&self) -> (out: &Vec<u8>)
        ensures
            out@ == self@.image,
    {
        &self.image
    }

    /// How many uploads have been started.
    pub fn attempts(&self) -> (out: u8)
        ensures
            out == self@.attempts,
    {
        self.attempts
    }

    /// The authorization that the transfer works under.
    pub fn blaze(&self) -> (out: &BlazeCache)
        ensures
            *out == self.spec_blaze(),
    {
        &self.blaze
    }

    /// Whether `event` is one that the transfer waits for.
    pub fn accepts(&self, event: &TransferEvent) -> (out: bool)
        ensures
            out == accepts(self@, *event),
    {
        match (self.state, event) {
            (TransferState::Start, TransferEvent::Begin) => true,
            (TransferState::Downloading, TransferEvent::Downloaded(r)) => match r {
                Ok(Some(body)) => (body.len() as u64) < IMAGE_LIMIT,
                _ => true,
            },
            (TransferState::Leasing, TransferEvent::UrlMinted(_)) => true,
            (TransferState::RetryMinting, TransferEvent::UrlMinted(_)) => true,
            (TransferState::Uploading, TransferEvent::Uploaded(_)) => true,
            (TransferState::Retrying, TransferEvent::Uploaded(_)) => true,
            _ => false,
        }
    }

    /// Starts an upload of the object's bytes on `url`.
    fn send(&mut self, state: TransferState, url: UploadUrlResponse) -> (action: TransferAction)
        requires
            old(self)@.image.len() < IMAGE_LIMIT,
            old(self)@.attempts < 2,
        ensures
            final(self)@ == uploading(old(self)@, state, url),
            final(self).spec_blaze() == old(self).spec_blaze(),
            action matches TransferAction::Upload(request) && upload_headers(
                request,
                url,
                old(self)@.file_path,
                old(self)@.image,
            ),
    {
        let request = self.blaze.auth.upload_file(&url, self.file_path.clone(), &self.image);
        self.upload_url = Some(url);
        self.state = state;
        self.attempts = self.attempts + 1;
        TransferAction::Upload(request)
    }

    /// Ends the transfer.
    fn finish(&mut self, outcome: TransferOutcome) -> (action: TransferAction)
        ensures
            final(self)@ == finished(old(self)@),
            final(self).spec_blaze() == old(self).spec_blaze(),
            action == TransferAction::Finish(outcome),
    {
        self.upload_url = None;
        self.state = TransferState::Finished;
        TransferAction::Finish(outcome)
    }

    /// Takes the transfer one step on: given what happened, says what to do
    /// next.
    ///
    /// The object is fetched first. Without a body the transfer ends as
    /// skipped. With one, an endpoint is taken from the pool, or asked for
    /// where the pool is empty, and the upload is started. An upload that
    /// succeeds hands its endpoint back to the pool. A first upload that fails
    /// with a status of 401 or 503 is followed by exactly one more, on a fresh
    /// endpoint that is asked for and not taken from the pool; the endpoint of
    /// the failed upload is given up. Every other failure, and any failure of
    /// the second upload, ends the transfer as fatal, with that failure.
    pub fn download_and_send_next(
        &mut self,
        url_cache: &mut BlazeUploadUrlCache,
        event: TransferEvent,
    ) -> (action: TransferAction)
        requires
            old(self).wf(),
            accepts(old(self)@, event),
        ensures
            final(self).wf(),
            final(self).spec_blaze() == old(self).spec_blaze(),
            final(self)@ == next_state(old(self)@, old(url_cache)@, event),
            final(url_cache)@ == next_idle(old(self)@, old(url_cache)@, event),
            answers(old(self)@, old(url_cache)@, event, action),
    {
        match event {
            TransferEvent::Begin => {
                self.state = TransferState::Downloading;
                TransferAction::Download(self.file_path.clone())
            },
            TransferEvent::Downloaded(Ok(Some(body))) => {
                self.image = body;
                match url_cache.take_upload_url() {
                    Some(url) => self.send(TransferState::Uploading, url),
                    None => {
                        self.state = TransferState::Leasing;
                        TransferAction::MintUrl
                    },
                }
            },
            TransferEvent::Downloaded(Ok(None)) => self.finish(TransferOutcome::Skipped),
            TransferEvent::Downloaded(Err(e)) => self.finish(TransferOutcome::Fatal(e)),
            TransferEvent::UrlMinted(Ok(url)) => {
                let state = if self.state == TransferState::Leasing {
                    TransferState::Uploading
                } else {
                    TransferState::Retrying
                };
                self.send(state, url)
            },
            TransferEvent::UrlMinted(Err(e)) => self.finish(TransferOutcome::Fatal(e)),
            TransferEvent::Uploaded(Ok(_)) => {
                match self.upload_url.take() {
                    Some(url) => {
                        let _ = url_cache.return_upload_url(url);
                    },
                    None => {},
                }
                self.finish(TransferOutcome::Success)
            },
            TransferEvent::Uploaded(Err(e)) => {
                if self.state == TransferState::Uploading && e.is_retryable() {
                    self.upload_url = None;
                    self.state = TransferState::RetryMinting;
                    TransferAction::MintUrl
                } else {
                    self.finish(TransferOutcome::Fatal(e))
                }
            },
        }
    }
}

} // verus!

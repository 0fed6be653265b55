//! The batch-download orchestrator: one request per item id per pass, a
//! single refresh-and-retry cascade for the whole batch, and a final
//! report that never loses an id.
//!
//! The orchestrator is a state machine. The caller fetches the requests it
//! describes, records each attempt's outcome, and asks it to advance once
//! a pass is complete; the orchestrator decides whether the batch is done,
//! needs its one refresh, or retries the outstanding ids in a second and
//! final pass.

use vstd::prelude::*;
use crate::error::OsuMapDownloadError;
use crate::num::dec_str;
use crate::num::u64_to_string;
use crate::request::HttpRequest;
use crate::session::UserSession;
use crate::session::beatmapset_url;
use crate::session::cookie_str;

verus! {

/// One per-attempt descriptor: the item to fetch and whether its video is
/// left out.
#[derive(Debug, Clone, PartialEq, Eq)]
pub struct DownloadRequest {
    pub item_id: String,
    pub no_video: bool,
}

/// What one attempt at one id came to. Exactly one variant per attempt.
#[derive(Debug, Clone, PartialEq, Eq)]
pub enum DownloadOutcome {
    /// The artifact was fetched and fully written.
    Success { bytes_written: u64, path: String },
    /// HTTP 404: the artifact is gone; terminal, never retried.
    NotFound,
    /// The transport failed before any HTTP status arrived.
    TransientFailure,
    /// An unexpected status: treated as a sign of an expired session.
    AuthFailure,
    /// The body arrived but could not be written out.
    IOFailure { reason: String },
}

/// The report of one batch call: which ids succeeded, and each failed id
/// with its final outcome, in the order the ids were given.
#[derive(Debug, PartialEq, Eq)]
pub struct BatchResult {
    pub succeeded: Vec<String>,
    pub failed: Vec<(String, DownloadOutcome)>,
}

/// How one response is handled before any body is read.
#[derive(Debug, Clone, Copy, PartialEq, Eq)]
pub enum ResponseClass {
    /// HTTP 200: stream the body; the writer decides the outcome.
    Deliver,
    /// HTTP 404: terminal for the id.
    NotFound,
    /// No HTTP status at all: a transport-level failure.
    Transient,
    /// Any other status: an authentication-class failure.
    Auth,
}

/// What the transport observed for one request.
#[derive(Debug, Clone, Copy, PartialEq, Eq)]
pub enum FetchEvent {
    /// The request itself failed: connection failure or timeout.
    TransportError,
    /// A response arrived with this status.
    Status { status: u16 },
}

pub open spec fn spec_classify(e: FetchEvent) -> ResponseClass {
    match e {
        FetchEvent::TransportError => ResponseClass::Transient,
        FetchEvent::Status { status } => if status == 200 {
            ResponseClass::Deliver
        } else if status == 404 {
            ResponseClass::NotFound
        } else {
            ResponseClass::Auth
        },
    }
}

/// Classifies a fetch event: 200 is delivered to the writer, 404 is
/// terminal, a transport failure is transient, anything else is an
/// authentication-class failure.
pub fn classify(e: &FetchEvent) -> (c: ResponseClass)
    ensures
        c == spec_classify(*e),
{
    match e {
        FetchEvent::TransportError => ResponseClass::Transient,
        FetchEvent::Status { status } => {
            if *status == 200 {
                ResponseClass::Deliver
            } else if *status == 404 {
                ResponseClass::NotFound
            } else {
                ResponseClass::Auth
            }
        },
    }
}

/// The outcome a non-delivered class resolves to at once; `None` for a
/// delivered response, whose outcome the writer decides.
pub fn non_delivery_outcome(c: ResponseClass) -> (o: Option<DownloadOutcome>)
    ensures
        match c {
            ResponseClass::Deliver => o is None,
            ResponseClass::NotFound => o == Some(DownloadOutcome::NotFound),
            ResponseClass::Transient => o == Some(DownloadOutcome::TransientFailure),
            ResponseClass::Auth => o == Some(DownloadOutcome::AuthFailure),
        },
{
    match c {
        ResponseClass::Deliver => None,
        ResponseClass::NotFound => Some(DownloadOutcome::NotFound),
        ResponseClass::Transient => Some(DownloadOutcome::TransientFailure),
        ResponseClass::Auth => Some(DownloadOutcome::AuthFailure),
    }
}

/// The outcome a delivered response comes to once its body has been
/// streamed: a success carrying the final byte count and the target path,
/// or a per-item I/O failure describing what went wrong.
pub fn delivery_outcome(result: Result<u64, OsuMapDownloadError>, path: String) -> (o:
    DownloadOutcome)
    ensures
        match result {
            Ok(n) => o == (DownloadOutcome::Success { bytes_written: n, path }),
            Err(e) => o matches DownloadOutcome::IOFailure { reason } && reason@
                == crate::error::spec_message(e),
        },
{
    match result {
        Ok(n) => DownloadOutcome::Success { bytes_written: n, path },
        Err(e) => DownloadOutcome::IOFailure { reason: e.message() },
    }
}

/// An outcome that is settled for good: retrying cannot improve on it.
pub open spec fn outcome_terminal(o: DownloadOutcome) -> bool {
    o is Success || o is NotFound
}

/// A recorded outcome that is not settled: the id is still outstanding and
/// a second pass would retry it.
pub open spec fn outstanding_opt(o: Option<DownloadOutcome>) -> bool {
    match o {
        Some(x) => !outcome_terminal(x),
        None => false,
    }
}

pub open spec fn all_resolved(outs: Seq<Option<DownloadOutcome>>) -> bool {
    forall|i: int| 0 <= i < outs.len() ==> outs[i] is Some
}

pub open spec fn has_outstanding(outs: Seq<Option<DownloadOutcome>>) -> bool {
    exists|i: int| 0 <= i < outs.len() && outstanding_opt(outs[i])
}

pub open spec fn is_success_opt(o: Option<DownloadOutcome>) -> bool {
    match o {
        Some(x) => x is Success,
        None => false,
    }
}

/// The ids whose outcome is a success, in the order they were given.
pub open spec fn succeeded_ids(ids: Seq<Seq<char>>, outs: Seq<Option<DownloadOutcome>>) -> Seq<
    Seq<char>,
>
    decreases ids.len(),
{
    if ids.len() == 0 || outs.len() == 0 {
        Seq::empty()
    } else {
        let rest = succeeded_ids(ids.drop_first(), outs.drop_first());
        if is_success_opt(outs.first()) {
            seq![ids.first()] + rest
        } else {
            rest
        }
    }
}

/// The failed ids with their outcomes, in the order they were given.
pub open spec fn failed_pairs(ids: Seq<Seq<char>>, outs: Seq<Option<DownloadOutcome>>) -> Seq<
    (Seq<char>, DownloadOutcome),
>
    decreases ids.len(),
{
    if ids.len() == 0 || outs.len() == 0 {
        Seq::empty()
    } else {
        let rest = failed_pairs(ids.drop_first(), outs.drop_first());
        match outs.first() {
            Some(o) => if o is Success {
                rest
            } else {
                seq![(ids.first(), o)] + rest
            },
            None => rest,
        }
    }
}

/// The pairs of a failed list, as mathematical values.
pub open spec fn pairs_view(v: Seq<(String, DownloadOutcome)>) -> Seq<(Seq<char>, DownloadOutcome)> {
    Seq::new(v.len(), |i: int| (v[i].0@, v[i].1))
}

/// The mathematical state of an orchestrator.
pub ghost struct OrchestratorView {
    pub ids: Seq<Seq<char>>,
    pub no_video: bool,
    pub outcomes: Seq<Option<DownloadOutcome>>,
    pub pass: int,
    pub refreshing: bool,
    pub done: bool,
    pub batch_error: Option<OsuMapDownloadError>,
}

/// The state invariant: outcomes run parallel to ids; there are at most
/// two passes; a refresh is only ever pending between a completed first
/// pass with outstanding ids and the second pass; a finished batch has
/// every id resolved; a batch-level error only exists once finished.
pub open spec fn inv(v: OrchestratorView) -> bool {
    &&& v.outcomes.len() == v.ids.len()
    &&& 1 <= v.pass <= 2
    &&& !(v.refreshing && v.done)
    &&& (v.refreshing ==> v.pass == 1 && all_resolved(v.outcomes) && has_outstanding(v.outcomes))
    &&& (v.done ==> all_resolved(v.outcomes))
    &&& (v.batch_error is Some ==> v.done)
}

/// The artifact-download URL of one item.
pub open spec fn download_url(id: Seq<char>, no_video: bool) -> Seq<char> {
    "https://osu.ppy.sh/beatmapsets/"@ + id + "/download?noVideo="@ + (if no_video {
        "1"@
    } else {
        "0"@
    })
}

/// The download URL for a numeric set id; the video is included unless
/// `download_video` is false, in which case the `noVideo` flag is set.
pub open spec fn set_url_spec(sid: nat, download_video: bool) -> Seq<char> {
    let base = "https://osu.ppy.sh/beatmapsets/"@ + dec_str(sid) + "/download"@;
    if !download_video {
        base + "?noVideo=1"@
    } else {
        base
    }
}

/// Builds the download URL for a numeric set id.
pub fn new_download_set_url(sid: u64, download_video: bool) -> (r: String)
    ensures
        r@ == set_url_spec(sid as nat, download_video),
{
    let mut url = "https://osu.ppy.sh/beatmapsets/".to_owned();
    let digits = u64_to_string(sid);
    url.append(digits.as_str());
    url.append("/download");
    if !download_video {
        url.append("?noVideo=1");
    }
    proof {
        assert(url@ =~= set_url_spec(sid as nat, download_video));
    }
    url
}

/// The batch-download state machine.
pub struct Orchestrator {
    ids: Vec<String>,
    no_video: bool,
    outcomes: Vec<Option<DownloadOutcome>>,
    pass: u8,
    refreshing: bool,
    done: bool,
    batch_error: Option<OsuMapDownloadError>,
}

impl View for Orchestrator {
    type V = OrchestratorView;

    closed spec fn view(&self) -> OrchestratorView {
        OrchestratorView {
            ids: self.ids.deep_view(),
            no_video: self.no_video,
            outcomes: self.outcomes@,
            pass: self.pass as int,
            refreshing: self.refreshing,
            done: self.done,
            batch_error: self.batch_error,
        }
    }
}

fn is_terminal_outcome(o: &DownloadOutcome) -> (b: bool)
    ensures
        b == outcome_terminal(*o),
{
    matches!(o, DownloadOutcome::Success { .. } | DownloadOutcome::NotFound)
}

impl Orchestrator {
    pub open spec fn wf(&self) -> bool {
        inv(self@)
    }

    /// Starts a batch for the given ids. Fails fast, before any request is
    /// described, when the destination is not an existing directory.
    pub fn new(ids: Vec<String>, destination_is_dir: bool, no_video: bool) -> (r: Result<
        Orchestrator,
        OsuMapDownloadError,
    >)
        ensures
            match r {
                Ok(o) => destination_is_dir && o.wf() && o@.ids == ids.deep_view() && o@.no_video
                    == no_video && o@.pass == 1 && !o@.refreshing && !o@.done && o@.batch_error
                    is None && forall|i: int|
                    0 <= i < o@.outcomes.len() ==> o@.outcomes[i] is None,
                Err(e) => !destination_is_dir && e == OsuMapDownloadError::InvalidDestinationError,
            },
    {
        if !destination_is_dir {
            return Err(OsuMapDownloadError::InvalidDestinationError);
        }
        let n = ids.len();
        let mut outcomes: Vec<Option<DownloadOutcome>> = Vec::new();
        let mut i: usize = 0;
        while i < n
            invariant
                i <= n,
                outcomes@.len() == i,
                forall|j: int| 0 <= j < i ==> outcomes@[j] is None,
            decreases n - i,
        {
            outcomes.push(None);
            i += 1;
        }
        Ok(
            Orchestrator {
                ids,
                no_video,
                outcomes,
                pass: 1,
                refreshing: false,
                done: false,
                batch_error: None,
            },
        )
    }

    /// How many ids the batch holds.
    pub fn len(&self) -> (n: usize)
        ensures
            n == self@.ids.len(),
    {
        self.ids.len()
    }

    /// The id at position `i`.
    pub fn id_at(&self, i: usize) -> (r: &str)
        requires
            i < self@.ids.len(),
        ensures
            r@ == self@.ids[i as int],
    {
        self.ids[i].as_str()
    }

    /// Whether the id at `i` still awaits an outcome in the current pass.
    pub fn is_pending(&self, i: usize) -> (b: bool)
        requires
            i < self@.ids.len(),
            self.wf(),
        ensures
            b == (self@.outcomes[i as int] is None),
    {
        self.outcomes[i].is_none()
    }

    /// Whether the machine is dispatching a pass (neither refreshing nor
    /// finished).
    pub fn in_dispatch(&self) -> (b: bool)
        ensures
            b == (!self@.refreshing && !self@.done),
    {
        !self.refreshing && !self.done
    }

    /// Whether the machine waits for the one refresh of the batch.
    pub fn is_refreshing(&self) -> (b: bool)
        ensures
            b == self@.refreshing,
    {
        self.refreshing
    }

    /// Whether the batch is finished.
    pub fn is_done(&self) -> (b: bool)
        ensures
            b == self@.done,
    {
        self.done
    }

    /// Which pass is running: the first, or the second and last.
    pub fn current_pass(&self) -> (p: u8)
        ensures
            p as int == self@.pass,
    {
        self.pass
    }

    /// The per-attempt descriptor for the id at `i`.
    pub fn describe(&self, i: usize) -> (r: DownloadRequest)
        requires
            i < self@.ids.len(),
        ensures
            r.item_id@ == self@.ids[i as int],
            r.no_video == self@.no_video,
    {
        DownloadRequest { item_id: self.ids[i].clone(), no_video: self.no_video }
    }

    /// The request to issue for the pending id at `i`: a GET of the
    /// artifact-download endpoint, with headers built from the session
    /// state at the time of the call.
    pub fn request_for(&self, i: usize, user: &UserSession) -> (r: HttpRequest)
        requires
            self.wf(),
            i < self@.ids.len(),
            self@.outcomes[i as int] is None,
            !self@.refreshing,
            !self@.done,
        ensures
            r.method is Get,
            r.url@ == download_url(self@.ids[i as int], self@.no_video),
            r.headers@.len() == 3,
            r.headers@[0].0@ == "cookie"@ && r.headers@[0].1@ == cookie_str(
                user@.token,
                user@.session,
            ),
            r.headers@[1].0@ == "referer"@ && r.headers@[1].1@ == beatmapset_url(
                self@.ids[i as int],
            ),
            r.headers@[2].0@ == "content-type"@ && r.headers@[2].1@
                == "application/x-www-form-urlencoded"@,
            r.form@.len() == 0,
    {
        let id = self.ids[i].as_str();
        let mut url = "https://osu.ppy.sh/beatmapsets/".to_owned();
        url.append(id);
        url.append("/download?noVideo=");
        url.append(if self.no_video { "1" } else { "0" });
        proof {
            assert(url@ =~= download_url(self@.ids[i as int], self@.no_video));
        }
        HttpRequest {
            method: crate::request::HttpMethod::Get,
            url,
            headers: user.new_header(id),
            form: Vec::new(),
        }
    }

    /// Records the outcome of one attempt at the pending id at `i`.
    pub fn record(&mut self, i: usize, outcome: DownloadOutcome)
        requires
            old(self).wf(),
            i < old(self)@.ids.len(),
            old(self)@.outcomes[i as int] is None,
            !old(self)@.refreshing,
            !old(self)@.done,
        ensures
            final(self).wf(),
            final(self)@.ids == old(self)@.ids,
            final(self)@.no_video == old(self)@.no_video,
            final(self)@.pass == old(self)@.pass,
            final(self)@.refreshing == old(self)@.refreshing,
            final(self)@.done == old(self)@.done,
            final(self)@.batch_error == old(self)@.batch_error,
            final(self)@.outcomes == old(self)@.outcomes.update(i as int, Some(outcome)),
    {
        self.outcomes.set(i, Some(outcome));
    }

    /// Whether every id of the current pass has an outcome.
    pub fn pass_complete(&self) -> (b: bool)
        requires
            self.wf(),
        ensures
            b == all_resolved(self@.outcomes),
    {
        let n = self.outcomes.len();
        let mut i: usize = 0;
        while i < n
            invariant
                i <= n,
                n == self@.outcomes.len(),
                forall|j: int| 0 <= j < i ==> self@.outcomes[j] is Some,
            decreases n - i,
        {
            if self.outcomes[i].is_none() {
                assert(!(self@.outcomes[i as int] is Some));
                return false;
            }
            i += 1;
        }
        true
    }

    /// Decides what follows a completed pass. The batch is finished when
    /// every id came to a settled outcome, and always after the second
    /// pass; otherwise the one refresh of the batch is requested.
    pub fn advance(&mut self) -> (needs_refresh: bool)
        requires
            old(self).wf(),
            !old(self)@.refreshing,
            !old(self)@.done,
            all_resolved(old(self)@.outcomes),
        ensures
            final(self).wf(),
            final(self)@.ids == old(self)@.ids,
            final(self)@.no_video == old(self)@.no_video,
            final(self)@.outcomes == old(self)@.outcomes,
            final(self)@.pass == old(self)@.pass,
            needs_refresh == (old(self)@.pass == 1 && has_outstanding(old(self)@.outcomes)),
            needs_refresh ==> final(self)@.refreshing && !final(self)@.done
                && final(self)@.batch_error is None
                && final(self)@.batch_error == old(self)@.batch_error,
            !needs_refresh ==> final(self)@.done && !final(self)@.refreshing
                && final(self)@.batch_error == old(self)@.batch_error,
    {
        let n = self.outcomes.len();
        let mut outstanding = false;
        let mut i: usize = 0;
        while i < n
            invariant
                i <= n,
                n == self@.outcomes.len(),
                outstanding == exists|j: int| 0 <= j < i && outstanding_opt(self@.outcomes[j]),
            decreases n - i,
        {
            match &self.outcomes[i] {
                Some(o) => {
                    if !is_terminal_outcome(o) {
                        assert(outstanding_opt(self@.outcomes[i as int]));
                        outstanding = true;
                    }
                },
                None => {},
            }
            i += 1;
        }
        assert(outstanding == has_outstanding(self@.outcomes));
        if self.pass == 1 && outstanding {
            self.refreshing = true;
            true
        } else {
            self.done = true;
            false
        }
    }

    /// Feeds back what the one refresh of the batch came to. On success
    /// the outstanding ids are reopened for the second and final pass; on
    /// failure the batch is finished at once, every outstanding id keeps
    /// the failure it already had, and the refresh error becomes the
    /// batch-level error.
    pub fn on_refresh_result(&mut self, r: Result<(), OsuMapDownloadError>)
        requires
            old(self).wf(),
            old(self)@.refreshing,
        ensures
            final(self).wf(),
            final(self)@.ids == old(self)@.ids,
            final(self)@.no_video == old(self)@.no_video,
            match r {
                Ok(()) => final(self)@.pass == 2 && !final(self)@.refreshing && !final(self)@.done
                    && final(self)@.batch_error is None
                    && final(self)@.outcomes.len() == old(self)@.outcomes.len() && forall|i: int|
                    0 <= i < old(self)@.outcomes.len() ==> final(self)@.outcomes[i] == (
                    if outstanding_opt(old(self)@.outcomes[i]) {
                        Option::<DownloadOutcome>::None
                    } else {
                        old(self)@.outcomes[i]
                    }),
                Err(e) => final(self)@.done && !final(self)@.refreshing && final(self)@.batch_error
                    == Some(e) && final(self)@.outcomes == old(self)@.outcomes && final(self)@.pass
                    == old(self)@.pass,
            },
    {
        match r {
            Ok(()) => {
                let ghost pre = self@;
                let ghost orig = self@.outcomes;
                let n = self.outcomes.len();
                let mut i: usize = 0;
                while i < n
                    invariant
                        i <= n,
                        n == self@.outcomes.len(),
                        self@.outcomes.len() == orig.len(),
                        self@.ids == pre.ids,
                        self@.no_video == pre.no_video,
                        self@.pass == pre.pass,
                        self@.refreshing == pre.refreshing,
                        self@.done == pre.done,
                        self@.batch_error == pre.batch_error,
                        forall|j: int|
                            0 <= j < i ==> self@.outcomes[j] == (if outstanding_opt(orig[j]) {
                                Option::<DownloadOutcome>::None
                            } else {
                                orig[j]
                            }),
                        forall|j: int| i <= j < n ==> self@.outcomes[j] == orig[j],
                    decreases n - i,
                {
                    let keep = match &self.outcomes[i] {
                        Some(o) => is_terminal_outcome(o),
                        None => false,
                    };
                    if !keep {
                        self.outcomes.set(i, None);
                    }
                    i += 1;
                }
                self.pass = 2;
                self.refreshing = false;
            },
            Err(e) => {
                self.refreshing = false;
                self.done = true;
                self.batch_error = Some(e);
            },
        }
    }

    /// The finished batch's report and its batch-level error, if the one
    /// refresh failed. Every id appears exactly once: under `succeeded`
    /// when its outcome is a success, under `failed` with its final
    /// outcome otherwise, both in the order the ids were given.
    pub fn into_result(self) -> (r: (BatchResult, Option<OsuMapDownloadError>))
        requires
            self.wf(),
            self@.done,
        ensures
            r.0.succeeded.deep_view() == succeeded_ids(self@.ids, self@.outcomes),
            pairs_view(r.0.failed@) == failed_pairs(self@.ids, self@.outcomes),
            r.1 == self@.batch_error,
    {
        let ghost full_ids = self@.ids;
        let ghost full_outs = self@.outcomes;
        let Orchestrator { mut ids, mut outcomes, batch_error, .. } = self;
        let mut succeeded: Vec<String> = Vec::new();
        let mut failed: Vec<(String, DownloadOutcome)> = Vec::new();
        proof {
            assert(succeeded.deep_view() + succeeded_ids(ids.deep_view(), outcomes@)
                =~= succeeded_ids(full_ids, full_outs));
            assert(pairs_view(failed@) + failed_pairs(ids.deep_view(), outcomes@) =~= failed_pairs(
                full_ids,
                full_outs,
            ));
        }
        while ids.len() > 0
            invariant
                outcomes@.len() == ids@.len(),
                all_resolved(outcomes@),
                succeeded_ids(full_ids, full_outs) == succeeded.deep_view() + succeeded_ids(
                    ids.deep_view(),
                    outcomes@,
                ),
                failed_pairs(full_ids, full_outs) == pairs_view(failed@) + failed_pairs(
                    ids.deep_view(),
                    outcomes@,
                ),
            decreases ids.len(),
        {
            let ghost pre_ids = ids.deep_view();
            let ghost pre_vec_ids = ids@;
            let ghost pre_outs = outcomes@;
            let ghost pre_succ = succeeded.deep_view();
            let ghost pre_failed = failed@;
            let id = ids.remove(0);
            let o_opt = outcomes.remove(0);
            proof {
                assert(ids@ =~= pre_vec_ids.drop_first());
                assert forall|k: int| 0 <= k < ids.deep_view().len() implies ids.deep_view()[k]
                    == pre_ids.drop_first()[k] by {
                    assert(ids.deep_view()[k] == ids@[k]@);
                    assert(ids@[k] == pre_vec_ids[k + 1]);
                    assert(pre_ids[k + 1] == pre_vec_ids[k + 1]@);
                }
                assert(ids.deep_view() =~= pre_ids.drop_first());
                assert(outcomes@ =~= pre_outs.drop_first());
                assert(o_opt == pre_outs.first());
                assert(id@ == pre_ids.first());
            }
            match o_opt {
                Some(o) => {
                    match o {
                        DownloadOutcome::Success { .. } => {
                            succeeded.push(id);
                            proof {
                                assert(succeeded.deep_view() =~= pre_succ + seq![pre_ids.first()]);
                                assert((pre_succ + seq![pre_ids.first()]) + succeeded_ids(
                                    ids.deep_view(),
                                    outcomes@,
                                ) =~= pre_succ + (seq![pre_ids.first()] + succeeded_ids(
                                    ids.deep_view(),
                                    outcomes@,
                                )));
                            }
                        },
                        o => {
                            failed.push((id, o));
                            proof {
                                assert(pairs_view(failed@) =~= pairs_view(pre_failed) + seq![
                                    (pre_ids.first(), pre_outs.first()->Some_0),
                                ]);
                                assert((pairs_view(pre_failed) + seq![
                                    (pre_ids.first(), pre_outs.first()->Some_0),
                                ]) + failed_pairs(ids.deep_view(), outcomes@) =~= pairs_view(
                                    pre_failed,
                                ) + (seq![(pre_ids.first(), pre_outs.first()->Some_0)]
                                    + failed_pairs(ids.deep_view(), outcomes@)));
                            }
                        },
                    }
                },
                None => {
                    proof {
                        assert(pre_outs[0] is Some);
                        assert(false);
                    }
                },
            }
        }
        proof {
            assert(succeeded.deep_view() + succeeded_ids(ids.deep_view(), outcomes@)
                =~= succeeded.deep_view());
            assert(pairs_view(failed@) + failed_pairs(ids.deep_view(), outcomes@) =~= pairs_view(
                failed@,
            ));
        }
        (BatchResult { succeeded, failed }, batch_error)
    }

    /// The batch-level error, if the one refresh failed.
    pub fn batch_failure(&self) -> (r: Option<&OsuMapDownloadError>)
        ensures
            match r {
                Some(e) => self@.batch_error == Some(*e),
                None => self@.batch_error is None,
            },
    {
        match &self.batch_error {
            Some(e) => Some(e),
            None => None,
        }
    }
}

/// The retry cascade is bounded. In every reachable state there are at
/// most two passes, and the one refresh of a batch can only be pending
/// during the first: `advance` requests a refresh only from pass one, and
/// `on_refresh_result` moves straight to the second and final pass, after
/// which `advance` can only finish the batch.
pub proof fn lemma_retry_bound(v: OrchestratorView)
    requires
        inv(v),
    ensures
        v.pass <= 2,
        v.refreshing ==> v.pass == 1,
{
}

/// A finished batch's report never loses an id: each id lands either in
/// the succeeded list or in the failed list, so the two lengths add up to
/// the batch's size.
pub proof fn lemma_batch_partition(ids: Seq<Seq<char>>, outs: Seq<Option<DownloadOutcome>>)
    requires
        outs.len() == ids.len(),
        all_resolved(outs),
    ensures
        succeeded_ids(ids, outs).len() + failed_pairs(ids, outs).len() == ids.len(),
    decreases ids.len(),
{
    if ids.len() > 0 {
        assert(outs[0] is Some);
        lemma_batch_partition(ids.drop_first(), outs.drop_first());
    }
}

/// Classification is stable: when every id of a batch resolves `NotFound`,
/// nothing is outstanding, so the batch finishes with no refresh, nothing
/// succeeds, and every id is reported `NotFound`, in order. A rerun of the
/// batch against unchanged server state therefore reproduces the same
/// report: the report is this same function of the ids and their
/// responses.
pub proof fn lemma_all_notfound_batch(ids: Seq<Seq<char>>, outs: Seq<Option<DownloadOutcome>>)
    requires
        outs.len() == ids.len(),
        forall|i: int| 0 <= i < outs.len() ==> outs[i] == Some(DownloadOutcome::NotFound),
    ensures
        !has_outstanding(outs),
        succeeded_ids(ids, outs) == Seq::<Seq<char>>::empty(),
        failed_pairs(ids, outs).len() == ids.len(),
        forall|i: int|
            0 <= i < ids.len() ==> failed_pairs(ids, outs)[i] == (ids[i], DownloadOutcome::NotFound),
    decreases ids.len(),
{
    assert forall|i: int| 0 <= i < outs.len() implies !outstanding_opt(outs[i]) by {
        assert(outs[i] == Some(DownloadOutcome::NotFound));
    }
    if ids.len() > 0 {
        lemma_all_notfound_batch(ids.drop_first(), outs.drop_first());
        assert(outs.first() == Some(DownloadOutcome::NotFound));
        assert(succeeded_ids(ids, outs) =~= Seq::<Seq<char>>::empty());
        assert(failed_pairs(ids, outs) == seq![(ids.first(), DownloadOutcome::NotFound)]
            + failed_pairs(ids.drop_first(), outs.drop_first()));
    }
}

} // verus!

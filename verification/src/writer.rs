//! The streaming writer's accounting: a response body arrives as chunks,
//! each chunk is appended to the target file, and the caller is told a
//! cumulative byte count that never decreases and never exceeds the
//! expected size, whatever the chunks claim.

use vstd::prelude::*;
use crate::error::OsuMapDownloadError;

verus! {

/// What happened to one chunk of the body stream.
#[derive(Debug, Clone, PartialEq, Eq)]
pub enum ChunkEvent {
    /// A chunk of `len` bytes was read; writing it failed with the given
    /// reason, or succeeded.
    Chunk { len: u64, write_error: Option<String> },
    /// The body stream broke before the next chunk arrived.
    ReadError,
}

/// The mathematical content of a chunk event.
pub ghost enum ChunkEventView {
    Chunk { len: u64, write_error: Option<Seq<char>> },
    ReadError,
}

impl View for ChunkEvent {
    type V = ChunkEventView;

    open spec fn view(&self) -> ChunkEventView {
        match self {
            ChunkEvent::Chunk { len, write_error } => ChunkEventView::Chunk {
                len: *len,
                write_error: match write_error {
                    Some(s) => Some(s@),
                    None => None,
                },
            },
            ChunkEvent::ReadError => ChunkEventView::ReadError,
        }
    }
}

impl DeepView for ChunkEvent {
    type V = ChunkEventView;

    open spec fn deep_view(&self) -> ChunkEventView {
        self.view()
    }
}

/// Why a stream stopped early.
pub ghost enum StreamHalt {
    ReadFailed,
    WriteFailed { reason: Seq<char> },
}

/// The cumulative count after one more chunk: the count grows by the
/// chunk's length but is clamped at the expected total, defending against
/// a malformed length header.
pub open spec fn clamp_add(cur: u64, len: u64, total: u64) -> u64 {
    if cur + len <= total {
        (cur + len) as u64
    } else {
        total
    }
}

/// The reported progress sequence and the final result of processing the
/// events in order, starting from `cur` bytes written: each successfully
/// written chunk reports one clamped cumulative count; the first failure
/// stops the stream.
pub open spec fn run_events(cur: u64, total: u64, events: Seq<ChunkEventView>) -> (Seq<u64>, Result<
    u64,
    StreamHalt,
>)
    decreases events.len(),
{
    if events.len() == 0 {
        (Seq::<u64>::empty(), Ok(cur))
    } else {
        match events.first() {
            ChunkEventView::Chunk { len, write_error } => {
                match write_error {
                    Option::None => {
                        let next = clamp_add(cur, len, total);
                        let rest = run_events(next, total, events.drop_first());
                        (seq![next] + rest.0, rest.1)
                    },
                    Option::Some(reason) => (
                        Seq::<u64>::empty(),
                        Err(StreamHalt::WriteFailed { reason }),
                    ),
                }
            },
            ChunkEventView::ReadError => (Seq::<u64>::empty(), Err(StreamHalt::ReadFailed)),
        }
    }
}

/// The progress reports are monotonically non-decreasing and capped at
/// the expected total, wherever the stream starts below it.
pub proof fn lemma_progress_monotone_capped(cur: u64, total: u64, events: Seq<ChunkEventView>)
    requires
        cur <= total,
    ensures
        ({
            let ps = run_events(cur, total, events).0;
            &&& forall|k: int| 0 <= k < ps.len() ==> cur <= #[trigger] ps[k] <= total
            &&& forall|k: int| 0 <= k < ps.len() - 1 ==> #[trigger] ps[k] <= ps[k + 1]
        }),
    decreases events.len(),
{
    if events.len() > 0 {
        match events.first() {
            ChunkEventView::Chunk { len, write_error } => {
                match write_error {
                    Option::None => {
                        let next = clamp_add(cur, len, total);
                        lemma_progress_monotone_capped(next, total, events.drop_first());
                        let sub = run_events(next, total, events.drop_first()).0;
                        let ps = run_events(cur, total, events).0;
                        assert(ps == seq![next] + sub);
                        assert(forall|k: int| 0 <= k < sub.len() ==> ps[k + 1] == sub[k]);
                    },
                    Option::Some(_) => {},
                }
            },
            ChunkEventView::ReadError => {},
        }
    }
}

/// The running state of one streamed file: how much was expected, and how
/// much has been counted so far.
pub struct StreamWriter {
    expected: u64,
    downloaded: u64,
}

impl StreamWriter {
    pub closed spec fn expected(&self) -> u64 {
        self.expected
    }

    pub closed spec fn downloaded(&self) -> u64 {
        self.downloaded
    }

    pub open spec fn wf(&self) -> bool {
        self.downloaded() <= self.expected()
    }

    /// Starts the accounting for a response. A response without a usable
    /// expected size is a hard error: progress and the success contract
    /// depend on knowing the total.
    pub fn begin(expected_size: Option<u64>) -> (r: Result<StreamWriter, OsuMapDownloadError>)
        ensures
            match r {
                Ok(w) => expected_size == Some(w.expected()) && w.downloaded() == 0 && w.wf(),
                Err(e) => expected_size is None && e == OsuMapDownloadError::UnknownSizeError,
            },
    {
        match expected_size {
            Some(total) => Ok(StreamWriter { expected: total, downloaded: 0 }),
            None => Err(OsuMapDownloadError::UnknownSizeError),
        }
    }

    /// Counts one successfully written chunk and reports the new
    /// cumulative count, clamped at the expected size.
    pub fn on_chunk(&mut self, len: u64) -> (p: u64)
        requires
            old(self).wf(),
        ensures
            final(self).wf(),
            final(self).expected() == old(self).expected(),
            final(self).downloaded() == clamp_add(old(self).downloaded(), len, old(self).expected()),
            p == final(self).downloaded(),
            old(self).downloaded() <= final(self).downloaded(),
    {
        if len >= self.expected - self.downloaded {
            self.downloaded = self.expected;
        } else {
            self.downloaded = self.downloaded + len;
        }
        self.downloaded
    }

    /// The cumulative count so far.
    pub fn bytes_written(&self) -> (n: u64)
        ensures
            n == self.downloaded(),
    {
        self.downloaded
    }

    /// The expected total.
    pub fn expected_size(&self) -> (n: u64)
        ensures
            n == self.expected(),
    {
        self.expected
    }
}

/// The record of one streamed file: every progress report made, and the
/// final result.
#[derive(Debug, PartialEq, Eq)]
pub struct StreamLog {
    pub progress: Vec<u64>,
    pub result: Result<u64, OsuMapDownloadError>,
}

/// Streams one response body to its target file, as witnessed by the
/// given chunk events. Without an expected size the stream is refused
/// outright; otherwise each successfully written chunk reports a clamped
/// cumulative count, a read failure ends the stream with
/// `DownloadPartError`, a write failure ends it with `TargetFileError`
/// naming the target, and an unbroken stream returns the final count.
pub fn write_file(expected_size: Option<u64>, path: &str, events: &Vec<ChunkEvent>) -> (r:
    StreamLog)
    ensures
        expected_size is None ==> r.result == Err::<u64, OsuMapDownloadError>(
            OsuMapDownloadError::UnknownSizeError,
        ) && r.progress@.len() == 0,
        expected_size matches Some(total) ==> {
            let run = run_events(0, total, events.deep_view());
            &&& r.progress@ == run.0
            &&& match run.1 {
                Ok(m) => r.result == Ok::<u64, OsuMapDownloadError>(m),
                Err(StreamHalt::ReadFailed) => r.result == Err::<u64, OsuMapDownloadError>(
                    OsuMapDownloadError::DownloadPartError,
                ),
                Err(StreamHalt::WriteFailed { reason }) => match r.result {
                    Err(OsuMapDownloadError::TargetFileError { path: p, reason: rs }) => p@ == path@
                        && rs@ == reason,
                    _ => false,
                },
            }
        },
{
    let total = match expected_size {
        Some(t) => t,
        None => {
            return StreamLog {
                progress: Vec::new(),
                result: Err(OsuMapDownloadError::UnknownSizeError),
            };
        },
    };
    let ghost evs = events.deep_view();
    let mut w = StreamWriter { expected: total, downloaded: 0 };
    let mut progress: Vec<u64> = Vec::new();
    let n = events.len();
    let mut i: usize = 0;
    proof {
        assert(evs.skip(0) =~= evs);
    }
    while i < n
        invariant
            i <= n,
            n == evs.len(),
            evs == events.deep_view(),
            expected_size == Some(total),
            w.wf(),
            w.expected() == total,
            run_events(0, total, evs).0 == progress@ + run_events(
                w.downloaded(),
                total,
                evs.skip(i as int),
            ).0,
            run_events(0, total, evs).1 == run_events(w.downloaded(), total, evs.skip(i as int)).1,
        decreases n - i,
    {
        let ghost cur = w.downloaded();
        proof {
            assert(evs.skip(i as int).first() == evs[i as int]);
            assert(evs.skip(i as int).drop_first() =~= evs.skip(i + 1));
        }
        match &events[i] {
            ChunkEvent::Chunk { len, write_error } => {
                match write_error {
                    Some(reason) => {
                        proof {
                            assert(evs[i as int] == events@[i as int]@);
                            assert(run_events(cur, total, evs.skip(i as int)).1 == Err::<
                                u64,
                                StreamHalt,
                            >(StreamHalt::WriteFailed { reason: reason@ }));
                        }
                        return StreamLog {
                            progress,
                            result: Err(
                                OsuMapDownloadError::TargetFileError {
                                    path: path.to_owned(),
                                    reason: reason.clone(),
                                },
                            ),
                        };
                    },
                    None => {
                        let ghost pre_progress = progress@;
                        let p = w.on_chunk(*len);
                        progress.push(p);
                        proof {
                            let rest = run_events(w.downloaded(), total, evs.skip(i + 1));
                            assert(run_events(cur, total, evs.skip(i as int)).0 == seq![p]
                                + rest.0);
                            assert(progress@ + rest.0 =~= pre_progress + (seq![p] + rest.0));
                        }
                    },
                }
            },
            ChunkEvent::ReadError => {
                proof {
                    assert(evs[i as int] == events@[i as int]@);
                    assert(run_events(cur, total, evs.skip(i as int)).1 == Err::<u64, StreamHalt>(
                        StreamHalt::ReadFailed,
                    ));
                }
                return StreamLog {
                    progress,
                    result: Err(OsuMapDownloadError::DownloadPartError),
                };
            },
        }
        i += 1;
    }
    proof {
        assert(evs.skip(n as int) =~= Seq::<ChunkEventView>::empty());
        assert(progress@ + run_events(w.downloaded(), total, evs.skip(n as int)).0 =~= progress@);
    }
    let bytes = w.bytes_written();
    StreamLog { progress, result: Ok(bytes) }
}

} // verus!

use vstd::prelude::*;
use crate::policy::RecordedFile;

verus! {

/// The model of one capture stream's shared state: whether the live
/// hardware stream is still owned, whether the writer has been
/// consumed, and the sample count recorded at finalization.
pub struct CaptureHandle {
    /// The hardware stream has not been taken for pausing yet.
    pub stream_live: bool,
    /// The writer was consumed (flushed and closed) and the count
    /// recorded; this happens at most once.
    pub finalized: bool,
    /// Total samples the writer emitted; written only at
    /// finalization, zero before.
    pub sample_count: u32,
    /// The temp path of this stream's WAV file.
    pub path: String,
}

impl CaptureHandle {
    /// A handle is consistent when finalization implies the stream is
    /// gone and the count is only set once finalized.
    pub open spec fn wf(self) -> bool {
        (self.finalized ==> !self.stream_live) && (!self.finalized ==> self.sample_count == 0)
    }

    /// The handle state after its stream has been taken, whatever it
    /// was before.
    pub open spec fn spec_taken(self) -> CaptureHandle {
        CaptureHandle { stream_live: false, ..self }
    }

    /// Arm a handle at recording start: stream live, writer present,
    /// nothing recorded yet.
    pub fn arm(path: String) -> (h: CaptureHandle)
        ensures
            h.stream_live,
            !h.finalized,
            h.sample_count == 0,
            h.path@ == path@,
            h.wf(),
    {
        CaptureHandle { stream_live: true, finalized: false, sample_count: 0, path }
    }

    /// Take ownership of the hardware stream if it is still present,
    /// so the shell can pause it. A handle whose stream was already
    /// taken reports `false` and is left exactly as it was: a second
    /// stop signal is a safe no-op per handle.
    pub fn take_stream(&mut self) -> (was_live: bool)
        ensures
            was_live == old(self).stream_live,
            *final(self) == old(self).spec_taken(),
    {
        let was: bool = self.stream_live;
        self.stream_live = false;
        was
    }

    /// Record the writer's emitted sample count and mark the writer
    /// consumed. Callers only finalize a handle once.
    pub fn finalize_writer(&mut self, count: u32)
        requires
            !old(self).finalized,
        ensures
            final(self).finalized,
            !final(self).stream_live,
            final(self).sample_count == count,
            final(self).path == old(self).path,
            final(self).wf(),
    {
        self.stream_live = false;
        self.finalized = true;
        self.sample_count = count;
    }

    /// The finished recording this handle produced: its temp path and
    /// the count recorded at finalization.
    pub fn recorded(&self) -> (r: RecordedFile)
        ensures
            r.path@ == self.path@,
            r.sample_count == self.sample_count,
    {
        RecordedFile { path: self.path.clone(), sample_count: self.sample_count }
    }
}

/// Taking the stream twice is the same as taking it once, and the
/// second take reports the stream absent: the per-handle finalize
/// step is idempotent, so a repeated stop signal re-finalizes
/// nothing.
pub proof fn lemma_take_stream_idempotent(h: CaptureHandle)
    ensures
        h.spec_taken().spec_taken() == h.spec_taken(),
        !h.spec_taken().stream_live,
{
}

/// The finished per-device recordings, in request order: each
/// handle's temp path with the sample count its finalization
/// recorded.
pub fn recorded_files(handles: &Vec<CaptureHandle>) -> (r: Vec<RecordedFile>)
    ensures
        r@.len() == handles@.len(),
        forall|i: int| 0 <= i < r@.len() ==> (#[trigger] r@[i]).path@ == handles@[i].path@,
        forall|i: int|
            0 <= i < r@.len() ==> (#[trigger] r@[i]).sample_count == handles@[i].sample_count,
{
    let mut out: Vec<RecordedFile> = Vec::new();
    let n = handles.len();
    let mut i: usize = 0;
    while i < n
        invariant
            i <= n,
            n == handles@.len(),
            out@.len() == i,
            forall|j: int| 0 <= j < i ==> (#[trigger] out@[j]).path@ == handles@[j].path@,
            forall|j: int|
                0 <= j < i ==> (#[trigger] out@[j]).sample_count == handles@[j].sample_count,
        decreases n - i,
    {
        out.push(handles[i].recorded());
        i = i + 1;
    }
    out
}

/// The strictly sequenced stages of one recording's life. Every
/// transition after `StopRequested` occurs at most once and none is
/// reversible; a failed stage logs and advances like a successful
/// one.
#[derive(Clone, Copy, Debug, PartialEq, Eq, Structural)]
pub enum Stage {
    Armed,
    Recording,
    StopRequested,
    Finalizing,
    Merging,
    Normalizing,
    Persisting,
    CleaningUp,
    Completed,
}

/// The position of a stage in the pipeline's order.
pub open spec fn stage_index(s: Stage) -> int {
    match s {
        Stage::Armed => 0,
        Stage::Recording => 1,
        Stage::StopRequested => 2,
        Stage::Finalizing => 3,
        Stage::Merging => 4,
        Stage::Normalizing => 5,
        Stage::Persisting => 6,
        Stage::CleaningUp => 7,
        Stage::Completed => 8,
    }
}

/// The stage after `s`: the pipeline's order, with `Completed`
/// absorbing. The index strictly increases until completion, so no
/// stage can run twice and none can be revisited.
pub fn advance(s: Stage) -> (n: Stage)
    ensures
        s is Completed ==> n is Completed,
        !(s is Completed) ==> stage_index(n) == stage_index(s) + 1,
{
    match s {
        Stage::Armed => Stage::Recording,
        Stage::Recording => Stage::StopRequested,
        Stage::StopRequested => Stage::Finalizing,
        Stage::Finalizing => Stage::Merging,
        Stage::Merging => Stage::Normalizing,
        Stage::Normalizing => Stage::Persisting,
        Stage::Persisting => Stage::CleaningUp,
        Stage::CleaningUp => Stage::Completed,
        Stage::Completed => Stage::Completed,
    }
}

/// The one-shot gate in front of the stop pipeline.
pub struct StopCoordinator {
    pub stage: Stage,
}

/// A coordinator whose stop has already been requested.
pub open spec fn spec_stop_seen(c: StopCoordinator) -> bool {
    stage_index(c.stage) >= stage_index(Stage::StopRequested)
}

/// The coordinator state after a stop signal is delivered: the first
/// delivery moves to `StopRequested`, every later one changes
/// nothing.
pub open spec fn spec_request(c: StopCoordinator) -> StopCoordinator {
    if spec_stop_seen(c) {
        c
    } else {
        StopCoordinator { stage: Stage::StopRequested }
    }
}

impl StopCoordinator {
    /// A coordinator for a freshly armed session.
    pub fn new() -> (c: StopCoordinator)
        ensures
            c.stage is Recording,
            !spec_stop_seen(c),
    {
        StopCoordinator { stage: Stage::Recording }
    }

    /// React to the external stop signal. The first delivery moves
    /// the session to `StopRequested` and tells the caller to run the
    /// pipeline; any later delivery changes nothing and reports
    /// `false`, so the pipeline runs at most once.
    pub fn request_stop(&mut self) -> (go: bool)
        ensures
            go == !spec_stop_seen(*old(self)),
            *final(self) == spec_request(*old(self)),
    {
        match self.stage {
            Stage::Armed | Stage::Recording => {
                self.stage = Stage::StopRequested;
                true
            },
            _ => false,
        }
    }

    /// Move to the next pipeline stage.
    pub fn step(&mut self)
        ensures
            old(self).stage is Completed ==> final(self).stage is Completed,
            !(old(self).stage is Completed) ==> stage_index(final(self).stage) == stage_index(
                old(self).stage,
            ) + 1,
    {
        self.stage = advance(self.stage);
    }
}

/// Delivering the stop signal twice is the same as delivering it
/// once, and the second delivery is refused: after the first request
/// the coordinator has seen the stop, so the pipeline cannot be
/// re-entered, re-merge, or emit a second completion event.
pub proof fn lemma_request_stop_idempotent(c: StopCoordinator)
    ensures
        spec_request(spec_request(c)) == spec_request(c),
        spec_stop_seen(spec_request(c)),
{
}

} // verus!

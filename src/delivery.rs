use crate::auth::AzureService;
use crate::config::Config;
use crate::mail::KindleService;
use crate::error::KindleError;
use crate::text::{decimal, path_file_name, path_file_name_of, push_decimal};
use vstd::prelude::*;

verus! {

/// The counts of one run: files delivered and relocated, and files that failed.
#[derive(Debug, Clone, Copy, PartialEq, Eq, Structural)]
pub struct BatchOutcome {
    pub success: usize,
    pub failure: usize,
}

/// How one file of a batch ended.
#[derive(Debug, Clone, Copy, PartialEq, Eq, Structural)]
pub enum FileStatus {
    /// Sent and moved to the destination directory.
    Delivered,
    /// The gateway call failed; the file stays where it was.
    Rejected,
    /// Sent, but the move failed afterwards: a second run sends it again.
    Stranded,
}

#[derive(Debug, Clone, Copy, PartialEq, Eq, Structural)]
pub enum BatchPhase {
    Authenticating,
    Sending,
    Relocating,
    Finished,
    Aborted,
}

/// What the caller reports after performing the last action.
#[derive(Debug, Clone, Copy, PartialEq, Eq, Structural)]
pub enum BatchEvent {
    Authenticated,
    AuthFailed,
    Sent,
    SendFailed,
    Relocated,
    RelocationFailed,
}

/// What the caller is to do next; files are named by their index in the
/// enumeration.
#[derive(Debug, Clone, Copy, PartialEq, Eq, Structural)]
pub enum BatchAction {
    /// Obtain one access token for the whole batch.
    Authenticate,
    /// Send this file with the batch's token.
    SendFile(usize),
    /// Move this file into the destination directory.
    RelocateFile(usize),
    /// The batch is over, with these counts.
    Finish(BatchOutcome),
    /// The batch stops: authentication failed, or an event came out of order.
    Abort,
}

/// One run over the files enumerated in the source directory, strictly in
/// their order, one file at a time.
#[derive(Debug, Clone, Copy, PartialEq, Eq, Structural)]
pub struct BatchRun {
    pub file_count: usize,
    pub phase: BatchPhase,
    pub current: usize,
    pub success: usize,
    pub failure: usize,
}

impl BatchRun {
    /// Counts add up to the files behind the current one, which exists while
    /// files are being worked on.
    pub open spec fn wf(self) -> bool {
        &&& self.current <= self.file_count
        &&& self.success + self.failure == self.current
        &&& (self.phase is Sending || self.phase is Relocating) ==> self.current < self.file_count
        &&& self.phase is Authenticating ==> self.current == 0 && self.file_count > 0
    }
}

pub open spec fn outcome_of(s: BatchRun) -> BatchOutcome {
    BatchOutcome { success: s.success, failure: s.failure }
}

/// The start of a batch of `n` files: nothing to do, and no authentication,
/// where there are none.
pub open spec fn batch_start(n: usize) -> (BatchRun, BatchAction) {
    if n == 0 {
        (
            BatchRun { file_count: 0, phase: BatchPhase::Finished, current: 0, success: 0, failure: 0 },
            BatchAction::Finish(BatchOutcome { success: 0, failure: 0 }),
        )
    } else {
        (
            BatchRun { file_count: n, phase: BatchPhase::Authenticating, current: 0, success: 0, failure: 0 },
            BatchAction::Authenticate,
        )
    }
}

/// The current file is done with these counts: on to the next one, or finish.
pub open spec fn after_file(s: BatchRun, success: usize, failure: usize) -> (BatchRun, BatchAction) {
    let next = (s.current + 1) as usize;
    if next < s.file_count {
        (
            BatchRun { phase: BatchPhase::Sending, current: next, success, failure, ..s },
            BatchAction::SendFile(next),
        )
    } else {
        (
            BatchRun { phase: BatchPhase::Finished, current: next, success, failure, ..s },
            BatchAction::Finish(BatchOutcome { success, failure }),
        )
    }
}

pub open spec fn aborted(s: BatchRun) -> (BatchRun, BatchAction) {
    (BatchRun { phase: BatchPhase::Aborted, ..s }, BatchAction::Abort)
}

/// One step of a batch: a send that succeeded is followed by the move of the
/// file; a failed send or move counts the file as failed and goes on.
pub open spec fn batch_next(s: BatchRun, e: BatchEvent) -> (BatchRun, BatchAction) {
    match s.phase {
        BatchPhase::Authenticating => match e {
            BatchEvent::Authenticated => (
                BatchRun { phase: BatchPhase::Sending, ..s },
                BatchAction::SendFile(s.current),
            ),
            _ => aborted(s),
        },
        BatchPhase::Sending => match e {
            BatchEvent::Sent => (
                BatchRun { phase: BatchPhase::Relocating, ..s },
                BatchAction::RelocateFile(s.current),
            ),
            BatchEvent::SendFailed => after_file(s, s.success, (s.failure + 1) as usize),
            _ => aborted(s),
        },
        BatchPhase::Relocating => match e {
            BatchEvent::Relocated => after_file(s, (s.success + 1) as usize, s.failure),
            BatchEvent::RelocationFailed => after_file(s, s.success, (s.failure + 1) as usize),
            _ => aborted(s),
        },
        BatchPhase::Finished => (s, BatchAction::Finish(outcome_of(s))),
        BatchPhase::Aborted => (s, BatchAction::Abort),
    }
}

impl BatchRun {
    /// Starts a batch over `file_count` enumerated files.
    pub fn start(file_count: usize) -> (r: (BatchRun, BatchAction))
        ensures
            r == batch_start(file_count),
            r.0.wf(),
    {
        if file_count == 0 {
            (
                BatchRun { file_count: 0, phase: BatchPhase::Finished, current: 0, success: 0, failure: 0 },
                BatchAction::Finish(BatchOutcome { success: 0, failure: 0 }),
            )
        } else {
            (
                BatchRun { file_count, phase: BatchPhase::Authenticating, current: 0, success: 0, failure: 0 },
                BatchAction::Authenticate,
            )
        }
    }

    fn after_file(&mut self, success: usize, failure: usize) -> (r: BatchAction)
        requires
            old(self).current < old(self).file_count,
        ensures
            (*final(self), r) == after_file(*old(self), success, failure),
    {
        let next = self.current + 1;
        self.current = next;
        self.success = success;
        self.failure = failure;
        if next < self.file_count {
            self.phase = BatchPhase::Sending;
            BatchAction::SendFile(next)
        } else {
            self.phase = BatchPhase::Finished;
            BatchAction::Finish(BatchOutcome { success, failure })
        }
    }

    /// Advances the batch by what was reported.
    pub fn step(&mut self, event: BatchEvent) -> (r: BatchAction)
        requires
            old(self).wf(),
        ensures
            (*final(self), r) == batch_next(*old(self), event),
            final(self).wf(),
    {
        match self.phase {
            BatchPhase::Authenticating => match event {
                BatchEvent::Authenticated => {
                    self.phase = BatchPhase::Sending;
                    BatchAction::SendFile(self.current)
                },
                _ => {
                    self.phase = BatchPhase::Aborted;
                    BatchAction::Abort
                },
            },
            BatchPhase::Sending => match event {
                BatchEvent::Sent => {
                    self.phase = BatchPhase::Relocating;
                    BatchAction::RelocateFile(self.current)
                },
                BatchEvent::SendFailed => {
                    let f = self.failure + 1;
                    self.after_file(self.success, f)
                },
                _ => {
                    self.phase = BatchPhase::Aborted;
                    BatchAction::Abort
                },
            },
            BatchPhase::Relocating => match event {
                BatchEvent::Relocated => {
                    let s = self.success + 1;
                    self.after_file(s, self.failure)
                },
                BatchEvent::RelocationFailed => {
                    let f = self.failure + 1;
                    self.after_file(self.success, f)
                },
                _ => {
                    self.phase = BatchPhase::Aborted;
                    BatchAction::Abort
                },
            },
            BatchPhase::Finished => BatchAction::Finish(BatchOutcome { success: self.success, failure: self.failure }),
            BatchPhase::Aborted => BatchAction::Abort,
        }
    }

    /// The counts so far.
    pub fn outcome(&self) -> (r: BatchOutcome)
        ensures
            r == outcome_of(*self),
    {
        BatchOutcome { success: self.success, failure: self.failure }
    }
}

impl BatchOutcome {
    /// A run is reported as failed as soon as one file failed.
    pub fn is_failure(&self) -> (r: bool)
        ensures
            r == (self.failure > 0),
    {
        self.failure > 0
    }
}

/// What the caller reports for a file that ends with `st`.
pub open spec fn events_of(st: FileStatus) -> Seq<BatchEvent> {
    match st {
        FileStatus::Delivered => seq![BatchEvent::Sent, BatchEvent::Relocated],
        FileStatus::Rejected => seq![BatchEvent::SendFailed],
        FileStatus::Stranded => seq![BatchEvent::Sent, BatchEvent::RelocationFailed],
    }
}

/// What the caller reports for files that end, in order, with `sts`.
pub open spec fn events_for(sts: Seq<FileStatus>) -> Seq<BatchEvent>
    decreases sts.len(),
{
    if sts.len() == 0 {
        Seq::empty()
    } else {
        events_of(sts[0]) + events_for(sts.drop_first())
    }
}

/// The state reached, and the actions asked for, by feeding `es` in order.
pub open spec fn batch_run(s: BatchRun, es: Seq<BatchEvent>) -> (BatchRun, Seq<BatchAction>)
    decreases es.len(),
{
    if es.len() == 0 {
        (s, Seq::empty())
    } else {
        let (s1, a) = batch_next(s, es[0]);
        let (s2, acts) = batch_run(s1, es.drop_first());
        (s2, seq![a] + acts)
    }
}

pub open spec fn delivered_count(sts: Seq<FileStatus>) -> nat
    decreases sts.len(),
{
    if sts.len() == 0 {
        0
    } else {
        (if sts[0] is Delivered { 1nat } else { 0nat }) + delivered_count(sts.drop_first())
    }
}

proof fn lemma_run_concat(s: BatchRun, e1: Seq<BatchEvent>, e2: Seq<BatchEvent>)
    ensures
        batch_run(s, e1 + e2) == ({
            let (m, a1) = batch_run(s, e1);
            let (f, a2) = batch_run(m, e2);
            (f, a1 + a2)
        }),
    decreases e1.len(),
{
    if e1.len() == 0 {
        assert(e1 + e2 =~= e2);
        assert(Seq::<BatchAction>::empty() + batch_run(s, e2).1 =~= batch_run(s, e2).1);
    } else {
        let (s1, a) = batch_next(s, e1[0]);
        assert((e1 + e2).drop_first() =~= e1.drop_first() + e2);
        lemma_run_concat(s1, e1.drop_first(), e2);
        let (m, a1r) = batch_run(s1, e1.drop_first());
        let (f, a2) = batch_run(m, e2);
        assert(seq![a] + (a1r + a2) =~= (seq![a] + a1r) + a2);
    }
}

/// From file `s.current` on, with files ending as `sts`: where the batch ends
/// and which files it asks to send and to move.
proof fn lemma_run_files(s: BatchRun, sts: Seq<FileStatus>)
    requires
        s.wf(),
        s.phase is Sending,
        s.current + sts.len() == s.file_count,
    ensures
        ({
            let (f, acts) = batch_run(s, events_for(sts));
            &&& f.phase is Finished
            &&& f.success == s.success + delivered_count(sts)
            &&& f.success + f.failure == s.file_count
            &&& acts.len() > 0
            &&& acts.last() == BatchAction::Finish(outcome_of(f))
            &&& forall|j: usize|
                s.current < j < s.file_count ==> #[trigger] acts.contains(BatchAction::SendFile(j))
            &&& forall|j: usize|
                s.current <= j < s.file_count ==> (#[trigger] acts.contains(BatchAction::RelocateFile(j))
                    <==> !(sts[j - s.current] is Rejected))
            &&& forall|k: int|
                0 <= k < acts.len() && (#[trigger] acts[k]) is RelocateFile
                    ==> s.current <= acts[k]->RelocateFile_0
            &&& !acts.contains(BatchAction::Authenticate)
            &&& !acts.contains(BatchAction::Abort)
        }),
    decreases sts.len(),
{
    let st = sts[0];
    let rest = sts.drop_first();
    assert(events_for(sts) == events_of(st) + events_for(rest));
    lemma_run_concat(s, events_of(st), events_for(rest));
    let (m, a1) = batch_run(s, events_of(st));
    let i = s.current;
    let (d, dacts) = match st {
        FileStatus::Delivered => after_file(
            BatchRun { phase: BatchPhase::Relocating, ..s },
            (s.success + 1) as usize,
            s.failure,
        ),
        _ => after_file(
            BatchRun { phase: BatchPhase::Relocating, ..s },
            s.success,
            (s.failure + 1) as usize,
        ),
    };
    let es = events_of(st);
    let (s1, x) = batch_next(s, es[0]);
    if st is Rejected {
        assert(es.drop_first() =~= Seq::<BatchEvent>::empty());
        assert(batch_run(s1, es.drop_first()) == (s1, Seq::<BatchAction>::empty()));
        assert(batch_run(s, es) == (s1, seq![x] + Seq::<BatchAction>::empty()));
    } else {
        let e2 = es.drop_first();
        assert(e2 =~= seq![es[1]]);
        assert(e2.drop_first() =~= Seq::<BatchEvent>::empty());
        let (s2, y) = batch_next(s1, es[1]);
        assert(e2[0] == es[1]);
        assert(batch_run(s2, e2.drop_first()) == (s2, Seq::<BatchAction>::empty()));
        assert(batch_run(s1, e2) == (s2, seq![y] + Seq::<BatchAction>::empty()));
    }
    assert(m == d);
    if st is Rejected {
        assert(a1 =~= seq![dacts]);
    } else {
        assert(a1 =~= seq![BatchAction::RelocateFile(i), dacts]);
    }
    if rest.len() == 0 {
        assert(events_for(rest) =~= Seq::<BatchEvent>::empty());
        assert(a1 + Seq::<BatchAction>::empty() =~= a1);
        assert(delivered_count(rest) == 0);
        let acts = a1;
        assert forall|j: usize|
            s.current <= j < s.file_count implies (acts.contains(BatchAction::RelocateFile(j))
                <==> !(sts[j - s.current] is Rejected)) by {
            assert(j == i);
            if !(st is Rejected) {
                assert(acts[0] == BatchAction::RelocateFile(j));
            }
        }
    } else {
        lemma_run_files(m, rest);
        let (f, a2) = batch_run(m, events_for(rest));
        let acts = a1 + a2;
        assert(acts.last() == a2.last());
        assert forall|j: usize|
            s.current < j < s.file_count implies acts.contains(BatchAction::SendFile(j)) by {
            if j == i + 1 {
                assert(acts[a1.len() - 1] == BatchAction::SendFile(j));
            } else {
                assert(a2.contains(BatchAction::SendFile(j)));
                let k = choose|k: int| 0 <= k < a2.len() && a2[k] == BatchAction::SendFile(j);
                assert(acts[a1.len() + k] == a2[k]);
            }
        }
        assert forall|j: usize|
            s.current <= j < s.file_count implies (acts.contains(BatchAction::RelocateFile(j))
                <==> !(sts[j - s.current] is Rejected)) by {
            if j == i {
                if !(st is Rejected) {
                    assert(acts[0] == BatchAction::RelocateFile(j));
                } else {
                    if acts.contains(BatchAction::RelocateFile(j)) {
                        let k = choose|k: int| 0 <= k < acts.len() && acts[k] == BatchAction::RelocateFile(j);
                        if k >= a1.len() {
                            assert(a2[k - a1.len()] == acts[k]);
                        }
                    }
                }
            } else {
                assert(sts[j - s.current] == rest[j - m.current]);
                if a2.contains(BatchAction::RelocateFile(j)) {
                    let k = choose|k: int| 0 <= k < a2.len() && a2[k] == BatchAction::RelocateFile(j);
                    assert(acts[a1.len() + k] == a2[k]);
                }
                if acts.contains(BatchAction::RelocateFile(j)) {
                    let k = choose|k: int| 0 <= k < acts.len() && acts[k] == BatchAction::RelocateFile(j);
                    if k >= a1.len() {
                        assert(a2[k - a1.len()] == acts[k]);
                    }
                }
            }
        }
        assert forall|k: int|
            0 <= k < acts.len() && (#[trigger] acts[k]) is RelocateFile
                implies s.current <= acts[k]->RelocateFile_0 by {
            if k >= a1.len() {
                assert(a2[k - a1.len()] == acts[k]);
            }
        }
        if acts.contains(BatchAction::Authenticate) {
            let k = choose|k: int| 0 <= k < acts.len() && acts[k] == BatchAction::Authenticate;
            if k >= a1.len() {
                assert(a2[k - a1.len()] == acts[k]);
            }
        }
        if acts.contains(BatchAction::Abort) {
            let k = choose|k: int| 0 <= k < acts.len() && acts[k] == BatchAction::Abort;
            if k >= a1.len() {
                assert(a2[k - a1.len()] == acts[k]);
            }
        }
    }
}

/// A whole batch of `n` files: the start, a successful authentication, then
/// the files ending, in order, as `sts`; the last state and every action.
pub open spec fn batch_session(n: usize, sts: Seq<FileStatus>) -> (BatchRun, Seq<BatchAction>) {
    let (s0, a0) = batch_start(n);
    let (s1, a1) = batch_next(s0, BatchEvent::Authenticated);
    let (f, acts) = batch_run(s1, events_for(sts));
    (f, seq![a0, a1] + acts)
}

proof fn lemma_delivered_count(sts: Seq<FileStatus>, k: int)
    ensures
        delivered_count(sts) <= sts.len(),
        (forall|i: int| 0 <= i < sts.len() ==> #[trigger] sts[i] is Delivered) ==> delivered_count(
            sts,
        ) == sts.len(),
        0 <= k < sts.len() && !(sts[k] is Delivered) ==> delivered_count(sts) < sts.len(),
    decreases sts.len(),
{
    if sts.len() > 0 {
        let rest = sts.drop_first();
        lemma_delivered_count(rest, k - 1);
        if forall|i: int| 0 <= i < sts.len() ==> #[trigger] sts[i] is Delivered {
            assert(sts[0] is Delivered);
            assert forall|i: int| 0 <= i < rest.len() implies #[trigger] rest[i] is Delivered by {
                assert(rest[i] == sts[i + 1]);
            }
        }
        if 0 < k < sts.len() {
            assert(rest[k - 1] == sts[k]);
        }
    }
}

proof fn lemma_session(n: usize, sts: Seq<FileStatus>)
    requires
        n > 0,
        sts.len() == n,
    ensures
        ({
            let (f, acts) = batch_session(n, sts);
            &&& f.phase is Finished
            &&& f.success == delivered_count(sts)
            &&& f.success + f.failure == n
            &&& acts.last() == BatchAction::Finish(outcome_of(f))
            &&& forall|j: usize| j < n ==> #[trigger] acts.contains(BatchAction::SendFile(j))
            &&& forall|j: usize|
                j < n ==> (#[trigger] acts.contains(BatchAction::RelocateFile(j)) <==> !(
                sts[j as int] is Rejected))
        }),
{
    let (s0, a0) = batch_start(n);
    let (s1, a1) = batch_next(s0, BatchEvent::Authenticated);
    lemma_run_files(s1, sts);
    let (f, a2) = batch_run(s1, events_for(sts));
    let acts = seq![a0, a1] + a2;
    assert(acts.last() == a2.last());
    assert forall|j: usize| j < n implies #[trigger] acts.contains(BatchAction::SendFile(j)) by {
        if j == 0 {
            assert(acts[1] == BatchAction::SendFile(j));
        } else {
            assert(a2.contains(BatchAction::SendFile(j)));
            let k = choose|k: int| 0 <= k < a2.len() && a2[k] == BatchAction::SendFile(j);
            assert(acts[2 + k] == a2[k]);
        }
    }
    assert forall|j: usize|
        j < n implies (#[trigger] acts.contains(BatchAction::RelocateFile(j)) <==> !(
        sts[j as int] is Rejected)) by {
        if a2.contains(BatchAction::RelocateFile(j)) {
            let k = choose|k: int| 0 <= k < a2.len() && a2[k] == BatchAction::RelocateFile(j);
            assert(acts[2 + k] == a2[k]);
        }
        if acts.contains(BatchAction::RelocateFile(j)) {
            let k = choose|k: int| 0 <= k < acts.len() && acts[k] == BatchAction::RelocateFile(j);
            assert(k >= 2);
            assert(a2[k - 2] == acts[k]);
        }
    }
}

/// When every file of a non-empty batch of `n` is sent and moved, the batch
/// finishes with `n` successes and no failure, and every file is moved to the
/// destination directory.
pub proof fn lemma_all_delivered(n: usize, sts: Seq<FileStatus>)
    requires
        n > 0,
        sts.len() == n,
        forall|i: int| 0 <= i < n ==> #[trigger] sts[i] is Delivered,
    ensures
        ({
            let (f, acts) = batch_session(n, sts);
            &&& acts.last() == BatchAction::Finish(BatchOutcome { success: n, failure: 0 })
            &&& forall|j: usize| j < n ==> #[trigger] acts.contains(BatchAction::RelocateFile(j))
        }),
{
    lemma_session(n, sts);
    lemma_delivered_count(sts, 0);
}

/// When the gateway rejects file `k`, the batch still sends every later file,
/// counts at least one failure, and never moves file `k`.
pub proof fn lemma_rejection_continues(n: usize, sts: Seq<FileStatus>, k: usize)
    requires
        sts.len() == n,
        k < n,
        sts[k as int] is Rejected,
    ensures
        ({
            let (f, acts) = batch_session(n, sts);
            &&& forall|j: usize| k < j < n ==> #[trigger] acts.contains(BatchAction::SendFile(j))
            &&& acts.last() is Finish
            &&& acts.last()->Finish_0.failure >= 1
            &&& !acts.contains(BatchAction::RelocateFile(k))
        }),
{
    lemma_session(n, sts);
    lemma_delivered_count(sts, k as int);
}

/// An empty batch finishes at once with no success and no failure, and never
/// asks to authenticate.
pub proof fn lemma_empty_batch()
    ensures
        batch_start(0).1 == BatchAction::Finish(BatchOutcome { success: 0, failure: 0 }),
        batch_start(0).0.phase is Finished,
        batch_start(0).1 != BatchAction::Authenticate,
{
}

/// Where a file lands in `dir`: its name, after a separator unless `dir` is
/// empty or already ends with one.
pub open spec fn joined(dir: Seq<char>, name: Seq<char>) -> Seq<char> {
    if dir.len() == 0 {
        name
    } else if dir.last() == '/' {
        dir + name
    } else {
        dir + "/"@ + name
    }
}

/// Filesystem decisions of a run; listing and moving are done by the caller.
pub struct FileService {}

impl FileService {
    pub fn new() -> (r: Self) {
        FileService {}
    }

    /// The path that `source` is moved to in `destination_dir`, keeping its
    /// file name as a filesystem path reads it. Fails where `source` has none
    /// (it is empty, `/`, or ends in `..`).
    pub fn relocation_target(&self, source: &str, destination_dir: &str) -> (r: Result<String, KindleError>)
        ensures
            r is Err <==> path_file_name(source@) is None,
            r matches Ok(p) ==> p@ == joined(destination_dir@, path_file_name(source@)->Some_0),
            r matches Err(e) ==> e.message@ == "Invalid source path: no filename"@,
    {
        let name = match path_file_name_of(source) {
            Some(name) => name,
            None => return Err(KindleError::plain("Invalid source path: no filename")),
        };
        let n = destination_dir.unicode_len();
        if n == 0 {
            return Ok(name);
        }
        let mut target = String::from_str(destination_dir);
        if destination_dir.get_char(n - 1) != '/' {
            target.append("/");
        }
        target.append(name.as_str());
        Ok(target)
    }
}

/// A run over the source directory: one token, then each file in turn.
pub struct SendService<'a> {
    pub azure_service: AzureService<'a>,
    pub kindle_service: KindleService<'a>,
    pub file_service: FileService,
    pub config: &'a Config,
}

impl<'a> SendService<'a> {
    pub fn new(
        azure_service: AzureService<'a>,
        kindle_service: KindleService<'a>,
        config: &'a Config,
    ) -> (r: Self)
        ensures
            r.azure_service == azure_service,
            r.kindle_service == kindle_service,
            r.config == config,
    {
        SendService { azure_service, kindle_service, file_service: FileService::new(), config }
    }

    /// The verdict on a finished batch: failed as soon as one file failed,
    /// with the number of failed files.
    pub fn report(&self, outcome: BatchOutcome) -> (r: Result<(), KindleError>)
        ensures
            r is Ok <==> outcome.failure == 0,
            r matches Err(e) ==> e.message@ == "Failed to process "@ + decimal(outcome.failure as nat)
                + " files"@,
    {
        if outcome.failure == 0 {
            Ok(())
        } else {
            let mut message = String::from_str("Failed to process ");
            push_decimal(&mut message, outcome.failure as u64);
            message.append(" files");
            Err(KindleError { message })
        }
    }
}

} // verus!

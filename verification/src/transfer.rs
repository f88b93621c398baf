//! The course and the bookkeeping of a file transfer.
//!
//! A transfer prepares in four stages: the SFTP subsystem is ensured, the
//! source is opened, then the destination, then the size of the source is
//! determined. The program around this crate asks `next_transfer_action` what
//! to do at a stage, does it, and reports how it ended; `advance_transfer`
//! answers with the stage that follows.
//!
//! Then the file is copied in chunks. The program reads a chunk from the
//! source into a buffer and reports how many bytes it got;
//! `TransferJob::step` answers with the bytes to write and the progress to
//! report once they are written, or with the end of the transfer.

use vstd::prelude::*;
use vstd::slice::slice_subrange;
use vstd::string::StringExecFns;

verus! {

/// Name of the event that carries the progress of a transfer.
pub const TRANSFER_PROGRESS_EVENT: &'static str = "transfer-progress";

/// Size of the buffer that a transfer reads into.
pub const CHUNK_SIZE: usize = 32768;

/// Which way a transfer goes.
#[derive(Debug, Clone, Copy, PartialEq, Eq, Structural)]
pub enum Direction {
    Upload,
    Download,
}

/// Where a file of a transfer stands.
#[derive(Debug, Clone, Copy, PartialEq, Eq, Structural)]
pub enum Side {
    /// On the local file system.
    Local,
    /// On the remote file system, behind the SFTP subsystem.
    Remote,
}

/// Where a transfer stands.
#[derive(Debug, Clone, PartialEq, Eq)]
pub enum TransferStage {
    /// The SFTP subsystem of the session is being ensured.
    Preparing,
    OpeningSource,
    OpeningDestination,
    /// The size of the source is being determined.
    Measuring,
    Copying,
    Finished,
    Failed(TransferError),
}

/// How the outside work of a stage of a transfer ended.
#[derive(Debug, Clone, PartialEq, Eq)]
pub enum TransferOutcome {
    /// The work was done.
    Succeeded,
    /// The work failed; holds the failure.
    Failed(TransferError),
}

/// The outside work to do at a stage of a transfer.
#[derive(Debug, Clone, Copy, PartialEq, Eq, Structural)]
pub enum TransferAction {
    /// Find the session and create its SFTP subsystem unless it exists.
    EnsureSubsystem,
    /// Open the source for reading, on this side.
    OpenSource(Side),
    /// Create the destination, or open it for writing, on this side.
    OpenDestination(Side),
    /// Ask for the size of the source, on this side; where that fails, the
    /// size is unknown.
    MeasureSource(Side),
    /// Start the job with the size found, and copy the source to the
    /// destination chunk by chunk.
    Copy,
    /// Report the transfer as complete.
    Complete,
    /// Report the failure that the stage holds. What was written so far
    /// stays as it is.
    GiveUp,
}

/// A transfer in progress.
#[derive(Debug, Clone, PartialEq, Eq)]
pub struct TransferJob {
    pub session_id: String,
    pub direction: Direction,
    pub local_path: String,
    pub remote_path: String,
    /// Size of the source, or 0 where it is not known.
    pub total_bytes: u64,
    /// Bytes handed on for writing so far.
    pub transferred_bytes: u64,
}

/// A snapshot of a transfer, reported after each chunk.
#[derive(Debug, Clone, PartialEq, Eq)]
pub struct TransferProgress {
    pub session_id: String,
    pub file_path: String,
    pub transferred_bytes: u64,
    pub total_bytes: u64,
}

/// What to do after a read from the source.
#[derive(Debug, PartialEq, Eq)]
pub enum TransferStep<'a> {
    /// Write `data` to the destination; when that is done, report `progress`
    /// and read again.
    Write { data: &'a [u8], progress: TransferProgress },
    /// The source is exhausted: the transfer is complete.
    Finished,
}

/// Why a transfer did not run or did not complete.
#[derive(Debug, Clone, PartialEq, Eq)]
pub enum TransferError {
    SessionMissing,
    SftpNotInitialized,
    InvalidSessionId,
    /// A local or remote I/O failure; holds its message.
    Io(String),
}

impl TransferError {
    /// The message shown to the caller.
    pub open spec fn message_text(self) -> Seq<char> {
        match self {
            TransferError::SessionMissing => "Session not found"@,
            TransferError::SftpNotInitialized => "SFTP session not initialized"@,
            TransferError::InvalidSessionId => "Invalid session identifier"@,
            TransferError::Io(m) => m@,
        }
    }

    /// The message shown to the caller.
    pub fn message(&self) -> (s: String)
        ensures
            s@ == self.message_text(),
    {
        match self {
            TransferError::SessionMissing => String::from_str("Session not found"),
            TransferError::SftpNotInitialized => String::from_str("SFTP session not initialized"),
            TransferError::InvalidSessionId => String::from_str("Invalid session identifier"),
            TransferError::Io(m) => m.clone(),
        }
    }
}

impl Direction {
    /// The side that the source of a transfer stands on: the local one for an
    /// upload, the remote one for a download.
    pub open spec fn source(self) -> Side {
        match self {
            Direction::Upload => Side::Local,
            Direction::Download => Side::Remote,
        }
    }

    /// The side that the destination of a transfer stands on.
    pub open spec fn destination(self) -> Side {
        match self {
            Direction::Upload => Side::Remote,
            Direction::Download => Side::Local,
        }
    }
}

impl TransferStage {
    /// Whether the transfer is over, one way or the other.
    pub open spec fn is_final(self) -> bool {
        self is Finished || self is Failed
    }

    /// How far the transfer has come: the stages in their order, the two
    /// final ones last.
    pub open spec fn rank(self) -> nat {
        match self {
            TransferStage::Preparing => 0,
            TransferStage::OpeningSource => 1,
            TransferStage::OpeningDestination => 2,
            TransferStage::Measuring => 3,
            TransferStage::Copying => 4,
            TransferStage::Finished => 5,
            TransferStage::Failed(_) => 5,
        }
    }

    /// The work to do at this stage of a transfer in a direction: the source
    /// is opened before the destination, and measured after both are open.
    pub open spec fn action(self, direction: Direction) -> TransferAction {
        match self {
            TransferStage::Preparing => TransferAction::EnsureSubsystem,
            TransferStage::OpeningSource => TransferAction::OpenSource(direction.source()),
            TransferStage::OpeningDestination => TransferAction::OpenDestination(
                direction.destination(),
            ),
            TransferStage::Measuring => TransferAction::MeasureSource(direction.source()),
            TransferStage::Copying => TransferAction::Copy,
            TransferStage::Finished => TransferAction::Complete,
            TransferStage::Failed(_) => TransferAction::GiveUp,
        }
    }

    /// The stage that follows this one after an outcome.
    ///
    /// A final stage stays as it is. Measuring leads to copying whether or
    /// not the size was found. At any other stage success leads to the next
    /// stage in order, and a failure ends the transfer with that failure.
    pub open spec fn next(self, outcome: TransferOutcome) -> TransferStage {
        match self {
            TransferStage::Finished => self,
            TransferStage::Failed(_) => self,
            TransferStage::Measuring => TransferStage::Copying,
            _ => match outcome {
                TransferOutcome::Failed(e) => TransferStage::Failed(e),
                TransferOutcome::Succeeded => match self {
                    TransferStage::Preparing => TransferStage::OpeningSource,
                    TransferStage::OpeningSource => TransferStage::OpeningDestination,
                    TransferStage::OpeningDestination => TransferStage::Measuring,
                    _ => TransferStage::Finished,
                },
            },
        }
    }

    /// The stage reached from this one after a sequence of outcomes.
    pub open spec fn after(self, outcomes: Seq<TransferOutcome>) -> TransferStage
        decreases outcomes.len(),
    {
        if outcomes.len() == 0 {
            self
        } else {
            self.next(outcomes[0]).after(outcomes.drop_first())
        }
    }
}

/// Decides the outside work to do at a stage of a transfer.
pub fn next_transfer_action(stage: &TransferStage, direction: Direction) -> (action:
    TransferAction)
    ensures
        action == stage.action(direction),
{
    let source = match direction {
        Direction::Upload => Side::Local,
        Direction::Download => Side::Remote,
    };
    let destination = match direction {
        Direction::Upload => Side::Remote,
        Direction::Download => Side::Local,
    };
    match stage {
        TransferStage::Preparing => TransferAction::EnsureSubsystem,
        TransferStage::OpeningSource => TransferAction::OpenSource(source),
        TransferStage::OpeningDestination => TransferAction::OpenDestination(destination),
        TransferStage::Measuring => TransferAction::MeasureSource(source),
        TransferStage::Copying => TransferAction::Copy,
        TransferStage::Finished => TransferAction::Complete,
        TransferStage::Failed(_) => TransferAction::GiveUp,
    }
}

/// Moves a transfer on by one outcome.
pub fn advance_transfer(stage: TransferStage, outcome: TransferOutcome) -> (next: TransferStage)
    ensures
        next == stage.next(outcome),
{
    match stage {
        TransferStage::Finished => TransferStage::Finished,
        TransferStage::Failed(e) => TransferStage::Failed(e),
        TransferStage::Measuring => TransferStage::Copying,
        TransferStage::Preparing => match outcome {
            TransferOutcome::Succeeded => TransferStage::OpeningSource,
            TransferOutcome::Failed(e) => TransferStage::Failed(e),
        },
        TransferStage::OpeningSource => match outcome {
            TransferOutcome::Succeeded => TransferStage::OpeningDestination,
            TransferOutcome::Failed(e) => TransferStage::Failed(e),
        },
        TransferStage::OpeningDestination => match outcome {
            TransferOutcome::Succeeded => TransferStage::Measuring,
            TransferOutcome::Failed(e) => TransferStage::Failed(e),
        },
        TransferStage::Copying => match outcome {
            TransferOutcome::Succeeded => TransferStage::Finished,
            TransferOutcome::Failed(e) => TransferStage::Failed(e),
        },
    }
}

/// A final stage is never left: once `Finished` or `Failed`, always so.
pub proof fn law_transfer_final_stage_stays(stage: TransferStage, outcomes: Seq<TransferOutcome>)
    requires
        stage.is_final(),
    ensures
        stage.after(outcomes) == stage,
    decreases outcomes.len(),
{
    if outcomes.len() > 0 {
        law_transfer_final_stage_stays(stage, outcomes.drop_first());
    }
}

/// No step of a transfer goes back or repeats a stage.
pub proof fn law_transfer_never_steps_back(stage: TransferStage, outcome: TransferOutcome)
    requires
        !stage.is_final(),
    ensures
        stage.next(outcome).rank() > stage.rank(),
{
}

/// The destination is touched only after the source has been opened: the
/// action on the destination comes up exactly after two outcomes, both
/// successes, those of the subsystem and of the source. A source that
/// cannot be opened leaves the destination as it was.
pub proof fn law_source_opens_before_destination(
    outcomes: Seq<TransferOutcome>,
    direction: Direction,
)
    ensures
        TransferStage::Preparing.after(outcomes).action(direction) is OpenDestination
            <==> outcomes.len() == 2 && outcomes[0] is Succeeded && outcomes[1] is Succeeded,
{
    reveal_with_fuel(TransferStage::after, 4);
    let start = TransferStage::Preparing;
    if outcomes.len() >= 1 {
        let s1 = start.next(outcomes[0]);
        let rest1 = outcomes.drop_first();
        if s1.is_final() {
            law_transfer_final_stage_stays(s1, rest1);
        } else if rest1.len() >= 1 {
            let s2 = s1.next(rest1[0]);
            let rest2 = rest1.drop_first();
            if s2.is_final() {
                law_transfer_final_stage_stays(s2, rest2);
            } else if rest2.len() >= 1 {
                lemma_destination_is_passed(s2.next(rest2[0]), rest2.drop_first(), direction);
            }
        }
    }
}

/// From a stage past the opening of the destination, no run of outcomes
/// leads back to it.
proof fn lemma_destination_is_passed(
    stage: TransferStage,
    outcomes: Seq<TransferOutcome>,
    direction: Direction,
)
    requires
        stage.rank() >= 3,
    ensures
        stage.after(outcomes).rank() >= 3,
        !(stage.after(outcomes).action(direction) is OpenDestination),
    decreases outcomes.len(),
{
    if outcomes.len() > 0 {
        lemma_destination_is_passed(stage.next(outcomes[0]), outcomes.drop_first(), direction);
    }
}

impl TransferJob {
    /// The path that progress is reported under: the remote one for a
    /// download, the local one for an upload.
    pub open spec fn reported_path(self) -> Seq<char> {
        match self.direction {
            Direction::Download => self.remote_path@,
            Direction::Upload => self.local_path@,
        }
    }

    /// Whether `other` is this job at another point of its progress.
    pub open spec fn same_transfer(self, other: TransferJob) -> bool {
        &&& self.session_id@ == other.session_id@
        &&& self.direction == other.direction
        &&& self.local_path@ == other.local_path@
        &&& self.remote_path@ == other.remote_path@
        &&& self.total_bytes == other.total_bytes
    }

    /// Whether `progress` is the snapshot of this job.
    pub open spec fn snapshot_is(self, progress: TransferProgress) -> bool {
        &&& progress.session_id@ == self.session_id@
        &&& progress.file_path@ == self.reported_path()
        &&& progress.transferred_bytes == self.transferred_bytes
        &&& progress.total_bytes == self.total_bytes
    }

    /// Starts a transfer. `size` is the size of the source where it could be
    /// determined; an unknown size counts as 0.
    pub fn start(
        session_id: String,
        direction: Direction,
        local_path: String,
        remote_path: String,
        size: Option<u64>,
    ) -> (job: TransferJob)
        ensures
            job.session_id == session_id,
            job.direction == direction,
            job.local_path == local_path,
            job.remote_path == remote_path,
            job.transferred_bytes == 0,
            job.total_bytes == match size {
                Some(n) => n,
                None => 0,
            },
    {
        TransferJob {
            session_id,
            direction,
            local_path,
            remote_path,
            total_bytes: match size {
                Some(n) => n,
                None => 0,
            },
            transferred_bytes: 0,
        }
    }

    /// The snapshot of this job.
    pub fn snapshot(&self) -> (progress: TransferProgress)
        ensures
            self.snapshot_is(progress),
    {
        TransferProgress {
            session_id: self.session_id.clone(),
            file_path: match self.direction {
                Direction::Download => self.remote_path.clone(),
                Direction::Upload => self.local_path.clone(),
            },
            transferred_bytes: self.transferred_bytes,
            total_bytes: self.total_bytes,
        }
    }

    /// Takes the outcome of one read: `read` bytes now stand at the start of
    /// `buffer`.
    ///
    /// A read of zero bytes ends the transfer and changes nothing. Any other
    /// read hands out exactly the bytes read, counts them, and reports the new
    /// count.
    pub fn step<'a>(&mut self, buffer: &'a [u8], read: usize) -> (next: TransferStep<'a>)
        requires
            read <= buffer@.len(),
            old(self).transferred_bytes + read <= u64::MAX,
        ensures
            final(self).same_transfer(*old(self)),
            final(self).transferred_bytes == old(self).transferred_bytes + read,
            next is Finished <==> handed_out(buffer@, read as nat) is None,
            next matches TransferStep::Write { data, progress } ==> handed_out(
                buffer@,
                read as nat,
            ) == Some(data@) && final(self).snapshot_is(progress),
    {
        if read == 0 {
            return TransferStep::Finished;
        }
        let data = slice_subrange(buffer, 0, read);
        self.transferred_bytes = self.transferred_bytes + read as u64;
        let progress = self.snapshot();
        TransferStep::Write { data, progress }
    }
}

/// One read of a transfer's run: what the buffer held and how many bytes
/// the read put there.
pub struct ChunkRead {
    pub buffer: Seq<u8>,
    pub read: nat,
}

/// The bytes that `step` hands out for a read of `read` bytes into `buffer`,
/// if it hands out any.
pub open spec fn handed_out(buffer: Seq<u8>, read: nat) -> Option<Seq<u8>> {
    if read == 0 {
        None
    } else {
        Some(buffer.take(read as int))
    }
}

/// Whether every read of a run put no more bytes into the buffer than the
/// buffer holds.
pub open spec fn fit(reads: Seq<ChunkRead>) -> bool {
    forall|i: int| 0 <= i < reads.len() ==> (#[trigger] reads[i]).read <= reads[i].buffer.len()
}

/// The bytes that a transfer writes over a run of reads: what each read
/// brought, in the order of the reads, up to the first read of zero bytes.
pub open spec fn written(reads: Seq<ChunkRead>) -> Seq<u8>
    decreases reads.len(),
{
    if reads.len() == 0 {
        Seq::empty()
    } else {
        match handed_out(reads[0].buffer, reads[0].read) {
            Some(data) => data + written(reads.drop_first()),
            None => Seq::empty(),
        }
    }
}

/// The transferred counts that a transfer reports over a run of reads,
/// starting from a count: one after each read, up to the first read of zero
/// bytes.
pub open spec fn reported(count: nat, reads: Seq<ChunkRead>) -> Seq<nat>
    decreases reads.len(),
{
    if reads.len() == 0 || reads[0].read == 0 {
        Seq::empty()
    } else {
        let next = count + reads[0].read;
        seq![next] + reported(next, reads.drop_first())
    }
}

/// Progress is reported in strictly increasing order of transferred bytes.
pub proof fn law_progress_strictly_increases(count: nat, reads: Seq<ChunkRead>, i: int, j: int)
    requires
        0 <= i < j < reported(count, reads).len(),
    ensures
        count < reported(count, reads)[i] < reported(count, reads)[j],
    decreases reads.len(),
{
    let next = count + reads[0].read;
    let rest = reported(next, reads.drop_first());
    assert(reported(count, reads)[j] == rest[j - 1]);
    if i == 0 {
        if j > 1 {
            law_progress_strictly_increases(next, reads.drop_first(), 0, j - 1);
        } else {
            lemma_reports_exceed_start(next, reads.drop_first(), 0);
        }
    } else {
        assert(reported(count, reads)[i] == rest[i - 1]);
        law_progress_strictly_increases(next, reads.drop_first(), i - 1, j - 1);
    }
}

/// Every reported count exceeds the count that the run started from.
proof fn lemma_reports_exceed_start(count: nat, reads: Seq<ChunkRead>, i: int)
    requires
        0 <= i < reported(count, reads).len(),
    ensures
        count < reported(count, reads)[i],
    decreases reads.len(),
{
    if i > 0 {
        let next = count + reads[0].read;
        assert(reported(count, reads)[i] == reported(next, reads.drop_first())[i - 1]);
        lemma_reports_exceed_start(next, reads.drop_first(), i - 1);
    }
}

/// The last report of a run counts exactly the bytes that were written.
pub proof fn law_last_report_counts_written(count: nat, reads: Seq<ChunkRead>)
    requires
        fit(reads),
    ensures
        reported(count, reads).len() == 0 <==> written(reads).len() == 0,
        reported(count, reads).len() > 0 ==> reported(count, reads).last() == count + written(
            reads,
        ).len(),
    decreases reads.len(),
{
    if reads.len() > 0 && reads[0].read > 0 {
        let next = count + reads[0].read;
        let rest = reads.drop_first();
        assert(fit(rest)) by {
            assert forall|i: int| 0 <= i < rest.len() implies (#[trigger] rest[i]).read
                <= rest[i].buffer.len() by {
                assert(rest[i] == reads[i + 1]);
            }
        }
        law_last_report_counts_written(next, rest);
        let all = reported(count, reads);
        if reported(next, rest).len() > 0 {
            assert(all.last() == reported(next, rest).last());
        }
    }
}

/// A download of a source of `n > 0` bytes writes exactly `n` bytes, and its
/// last report counts `n` transferred bytes, which is the total where the
/// size of the source was known.
pub proof fn law_complete_transfer(source: Seq<u8>, reads: Seq<ChunkRead>, total: u64)
    requires
        fit(reads),
        written(reads) == source,
        source.len() > 0,
        total == source.len(),
    ensures
        written(reads).len() == total,
        reported(0, reads).len() > 0,
        reported(0, reads).last() == total,
{
    law_last_report_counts_written(0, reads);
}

/// Uploading a file and downloading the result yields the bytes of the file:
/// the upload writes what its reads brought from the local file, and the
/// download writes what its reads brought from the remote file.
pub proof fn law_round_trip(local: Seq<u8>, upload: Seq<ChunkRead>, download: Seq<ChunkRead>)
    requires
        written(upload) == local,
        written(download) == written(upload),
    ensures
        written(download) == local,
{
}

} // verus!

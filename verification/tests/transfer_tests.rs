use terminoda::transfer::{
    advance_transfer, next_transfer_action, Direction, Side, TransferAction, TransferError,
    TransferJob, TransferOutcome, TransferProgress, TransferStage, TransferStep, CHUNK_SIZE,
    TRANSFER_PROGRESS_EVENT,
};

fn job(direction: Direction, size: Option<u64>) -> TransferJob {
    TransferJob::start(
        "session-1".to_string(),
        direction,
        "/tmp/local.bin".to_string(),
        "/srv/remote.bin".to_string(),
        size,
    )
}

/// Copies `source` the way a transfer does: read a chunk, take the step,
/// write what the step hands out.
fn copy(source: &[u8], direction: Direction, size: Option<u64>) -> (Vec<u8>, Vec<TransferProgress>) {
    let mut job = job(direction, size);
    let mut dest = Vec::new();
    let mut reports = Vec::new();
    let mut buffer = vec![0u8; CHUNK_SIZE];
    let mut pos = 0;
    loop {
        let n = (source.len() - pos).min(buffer.len());
        buffer[..n].copy_from_slice(&source[pos..pos + n]);
        pos += n;
        match job.step(&buffer, n) {
            TransferStep::Write { data, progress } => {
                dest.extend_from_slice(data);
                reports.push(progress);
            }
            TransferStep::Finished => break,
        }
    }
    (dest, reports)
}

#[test]
fn chunk_size_is_32_kib() {
    assert_eq!(CHUNK_SIZE, 32 * 1024);
    assert_eq!(TRANSFER_PROGRESS_EVENT, "transfer-progress");
}

#[test]
fn start_sets_counts() {
    let j = job(Direction::Download, Some(1234));
    assert_eq!(j.total_bytes, 1234);
    assert_eq!(j.transferred_bytes, 0);
    assert_eq!(j.session_id, "session-1");
    assert_eq!(j.local_path, "/tmp/local.bin");
    assert_eq!(j.remote_path, "/srv/remote.bin");
    assert_eq!(j.direction, Direction::Download);
}

#[test]
fn unknown_size_counts_as_zero() {
    assert_eq!(job(Direction::Upload, None).total_bytes, 0);
}

#[test]
fn empty_read_finishes_and_changes_nothing() {
    let mut j = job(Direction::Download, Some(10));
    let buffer = [1u8, 2, 3];
    assert_eq!(j.step(&buffer, 0), TransferStep::Finished);
    assert_eq!(j, job(Direction::Download, Some(10)));
}

#[test]
fn step_hands_out_exactly_the_bytes_read() {
    let mut j = job(Direction::Download, Some(10));
    let buffer = [1u8, 2, 3, 4, 5];
    match j.step(&buffer, 3) {
        TransferStep::Write { data, progress } => {
            assert_eq!(data, &[1u8, 2, 3]);
            assert_eq!(
                progress,
                TransferProgress {
                    session_id: "session-1".to_string(),
                    file_path: "/srv/remote.bin".to_string(),
                    transferred_bytes: 3,
                    total_bytes: 10,
                }
            );
        }
        TransferStep::Finished => panic!("data expected"),
    }
    assert_eq!(j.transferred_bytes, 3);
    match j.step(&buffer, 5) {
        TransferStep::Write { data, progress } => {
            assert_eq!(data, &buffer);
            assert_eq!(progress.transferred_bytes, 8);
        }
        TransferStep::Finished => panic!("data expected"),
    }
}

#[test]
fn upload_reports_the_local_path() {
    let mut j = job(Direction::Upload, Some(4));
    assert_eq!(j.snapshot().file_path, "/tmp/local.bin");
    match j.step(&[9u8; 4], 4) {
        TransferStep::Write { progress, .. } => assert_eq!(progress.file_path, "/tmp/local.bin"),
        TransferStep::Finished => panic!("data expected"),
    }
}

#[test]
fn download_of_n_bytes_writes_n_bytes_and_ends_at_total() {
    let n = 3 * CHUNK_SIZE + 17;
    let source: Vec<u8> = (0..n).map(|i| (i % 251) as u8).collect();
    let (dest, reports) = copy(&source, Direction::Download, Some(n as u64));
    assert_eq!(dest.len(), n);
    assert_eq!(dest, source);
    assert_eq!(reports.len(), 4);
    let last = reports.last().unwrap();
    assert_eq!(last.transferred_bytes, n as u64);
    assert_eq!(last.total_bytes, n as u64);
}

#[test]
fn progress_strictly_increases() {
    let source = vec![7u8; 5 * CHUNK_SIZE];
    let (_, reports) = copy(&source, Direction::Upload, Some(source.len() as u64));
    let counts: Vec<u64> = reports.iter().map(|p| p.transferred_bytes).collect();
    let chunk = CHUNK_SIZE as u64;
    assert_eq!(counts, vec![chunk, 2 * chunk, 3 * chunk, 4 * chunk, 5 * chunk]);
}

#[test]
fn empty_source_reports_nothing() {
    let (dest, reports) = copy(&[], Direction::Download, Some(0));
    assert!(dest.is_empty());
    assert!(reports.is_empty());
}

#[test]
fn upload_then_download_returns_the_same_bytes() {
    let local: Vec<u8> = (0..100_000u32).map(|i| (i * 31 % 256) as u8).collect();
    let (remote, _) = copy(&local, Direction::Upload, Some(local.len() as u64));
    let (again, _) = copy(&remote, Direction::Download, None);
    assert_eq!(again, local);
}

#[test]
fn transfer_error_messages() {
    assert_eq!(TransferError::SessionMissing.message(), "Session not found");
    assert_eq!(TransferError::SftpNotInitialized.message(), "SFTP session not initialized");
    assert_eq!(TransferError::InvalidSessionId.message(), "Invalid session identifier");
    assert_eq!(TransferError::Io("disk full".to_string()).message(), "disk full");
}

/// The actions of a transfer whose every stage succeeds.
fn course(direction: Direction) -> Vec<TransferAction> {
    let mut stage = TransferStage::Preparing;
    let mut actions = Vec::new();
    loop {
        let action = next_transfer_action(&stage, direction);
        actions.push(action);
        if action == TransferAction::Complete || action == TransferAction::GiveUp {
            return actions;
        }
        stage = advance_transfer(stage, TransferOutcome::Succeeded);
    }
}

#[test]
fn download_opens_the_remote_source_before_the_local_destination() {
    assert_eq!(
        course(Direction::Download),
        vec![
            TransferAction::EnsureSubsystem,
            TransferAction::OpenSource(Side::Remote),
            TransferAction::OpenDestination(Side::Local),
            TransferAction::MeasureSource(Side::Remote),
            TransferAction::Copy,
            TransferAction::Complete,
        ]
    );
}

#[test]
fn upload_opens_the_local_source_before_the_remote_destination() {
    assert_eq!(
        course(Direction::Upload),
        vec![
            TransferAction::EnsureSubsystem,
            TransferAction::OpenSource(Side::Local),
            TransferAction::OpenDestination(Side::Remote),
            TransferAction::MeasureSource(Side::Local),
            TransferAction::Copy,
            TransferAction::Complete,
        ]
    );
}

#[test]
fn a_source_that_cannot_be_opened_ends_the_transfer() {
    let missing = TransferError::Io("No such file".to_string());
    let stage = advance_transfer(TransferStage::Preparing, TransferOutcome::Succeeded);
    assert_eq!(stage, TransferStage::OpeningSource);
    let stage = advance_transfer(stage, TransferOutcome::Failed(missing.clone()));
    assert_eq!(stage, TransferStage::Failed(missing.clone()));
    assert_eq!(next_transfer_action(&stage, Direction::Upload), TransferAction::GiveUp);
    let stage = advance_transfer(stage, TransferOutcome::Succeeded);
    assert_eq!(stage, TransferStage::Failed(missing));
}

#[test]
fn a_failure_ends_the_transfer_at_every_stage_but_measuring() {
    let failure = TransferError::Io("broken".to_string());
    let failed = TransferOutcome::Failed(failure.clone());
    for stage in [
        TransferStage::Preparing,
        TransferStage::OpeningSource,
        TransferStage::OpeningDestination,
        TransferStage::Copying,
    ] {
        assert_eq!(advance_transfer(stage, failed.clone()), TransferStage::Failed(failure.clone()));
    }
    assert_eq!(advance_transfer(TransferStage::Measuring, failed.clone()), TransferStage::Copying);
    assert_eq!(
        advance_transfer(TransferStage::Measuring, TransferOutcome::Succeeded),
        TransferStage::Copying
    );
}

#[test]
fn a_missing_session_fails_the_preparation() {
    let stage = advance_transfer(
        TransferStage::Preparing,
        TransferOutcome::Failed(TransferError::SessionMissing),
    );
    assert_eq!(stage, TransferStage::Failed(TransferError::SessionMissing));
}

#[test]
fn a_finished_transfer_stays_finished() {
    let stage = advance_transfer(TransferStage::Copying, TransferOutcome::Succeeded);
    assert_eq!(stage, TransferStage::Finished);
    let failed = TransferOutcome::Failed(TransferError::Io("late".to_string()));
    assert_eq!(advance_transfer(stage, failed), TransferStage::Finished);
}

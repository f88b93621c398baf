use terminoda::sftp::{
    close_message, init_failure_message, unavailable_message, FsCall, FsRequest, RemoteStat,
    TeardownStep, NEW_DIRECTORY_MODE,
};

fn p(path: &str) -> String {
    path.to_string()
}

#[test]
fn listing_reads_the_directory() {
    assert_eq!(
        FsRequest::List { path: p("/srv") }.into_call(),
        FsCall::ReadDirectory { path: p("/srv") }
    );
}

#[test]
fn directories_are_created_with_mode_755() {
    assert_eq!(NEW_DIRECTORY_MODE, 0o755);
    assert_eq!(
        FsRequest::MakeDirectory { path: p("/srv/new") }.into_call(),
        FsCall::MakeDirectory { path: p("/srv/new"), mode: 0o755 }
    );
}

#[test]
fn deletion_follows_the_callers_flag() {
    assert_eq!(
        FsRequest::Delete { path: p("/srv/x"), is_dir: true }.into_call(),
        FsCall::RemoveDirectory { path: p("/srv/x") }
    );
    assert_eq!(
        FsRequest::Delete { path: p("/srv/x"), is_dir: false }.into_call(),
        FsCall::Unlink { path: p("/srv/x") }
    );
}

#[test]
fn rename_and_chmod_carry_their_arguments() {
    assert_eq!(
        FsRequest::Rename { old_path: p("/a"), new_path: p("/b") }.into_call(),
        FsCall::Rename { old_path: p("/a"), new_path: p("/b") }
    );
    assert_eq!(
        FsRequest::Chmod { path: p("/a"), mode: 0o600 }.into_call(),
        FsCall::SetMode { path: p("/a"), mode: 0o600 }
    );
}

#[test]
fn with_mode_replaces_only_the_mode() {
    let stat = RemoteStat {
        size: Some(12),
        uid: Some(1000),
        gid: None,
        permissions: Some(0o100644),
        accessed: Some(5),
        modified: Some(6),
    };
    assert_eq!(
        stat.with_mode(0o600),
        RemoteStat {
            size: Some(12),
            uid: Some(1000),
            gid: None,
            permissions: Some(0o600),
            accessed: Some(5),
            modified: Some(6),
        }
    );
}

#[test]
fn teardown_runs_its_three_steps_in_order() {
    let first = TeardownStep::first();
    assert_eq!(first, TeardownStep::SendEof);
    assert_eq!(first.next(), Some(TeardownStep::CloseChannel));
    assert_eq!(TeardownStep::CloseChannel.next(), Some(TeardownStep::AwaitClose));
    assert_eq!(TeardownStep::AwaitClose.next(), None);
}

#[test]
fn teardown_failure_messages() {
    assert_eq!(
        TeardownStep::SendEof.failure_message("s1", "gone"),
        "Failed to send EOF for session s1: gone"
    );
    assert_eq!(
        TeardownStep::CloseChannel.failure_message("s1", "gone"),
        "Failed to close channel for session s1: gone"
    );
    assert_eq!(
        TeardownStep::AwaitClose.failure_message("s1", "gone"),
        "Failed to wait for channel close for session s1: gone"
    );
}

#[test]
fn close_and_init_messages() {
    assert_eq!(close_message(true, "s1"), "Closed and removed session s1");
    assert_eq!(close_message(false, "s1"), "Attempted to close non-existent session s1");
    assert_eq!(init_failure_message("denied"), "Failed to initialize SFTP: denied");
    assert_eq!(unavailable_message(), "SFTP session not available");
}

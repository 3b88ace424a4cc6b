use fs_sentinel::cli::{client_outcome, join_lines, split_filesystem_spec, ClientOutcome};
use fs_sentinel::filesystem::FileSystemModificationStatus;
use fs_sentinel::ipc::IPCOutput;

fn split(s: &str) -> Option<(String, String)> {
    split_filesystem_spec(s)
}

#[test]
fn split_at_the_first_equals_sign() {
    assert_eq!(split("root=/"), Some(("root".to_string(), "/".to_string())));
    assert_eq!(split("data=/mnt/a=b"), Some(("data".to_string(), "/mnt/a=b".to_string())));
    assert_eq!(split("=/x"), Some(("".to_string(), "/x".to_string())));
    assert_eq!(split("x="), Some(("x".to_string(), "".to_string())));
    assert_eq!(split("dätä=/mnt/ü"), Some(("dätä".to_string(), "/mnt/ü".to_string())));
}

#[test]
fn split_without_equals_sign() {
    assert_eq!(split("root"), None);
    assert_eq!(split(""), None);
}

#[test]
fn join_lines_puts_one_identifier_per_line() {
    assert_eq!(join_lines(&vec![]), "");
    assert_eq!(join_lines(&vec!["a".to_string()]), "a");
    assert_eq!(join_lines(&vec!["a".to_string(), "b".to_string(), "c".to_string()]), "a\nb\nc");
}

#[test]
fn client_outcomes() {
    assert_eq!(client_outcome(IPCOutput::Success), ClientOutcome::Succeed);
    assert_eq!(
        client_outcome(IPCOutput::FileSystemStatus(FileSystemModificationStatus::Modified)),
        ClientOutcome::Succeed
    );
    assert_eq!(
        client_outcome(IPCOutput::FileSystemStatus(FileSystemModificationStatus::UnModified)),
        ClientOutcome::Fail
    );
    assert_eq!(
        client_outcome(IPCOutput::DaemonError("boom".to_string())),
        ClientOutcome::Error("boom".to_string())
    );
    assert_eq!(
        client_outcome(IPCOutput::FileSystemList(vec!["a".to_string(), "b".to_string()])),
        ClientOutcome::Print("a\nb".to_string())
    );
}

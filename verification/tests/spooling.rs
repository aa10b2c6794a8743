use callfile::spool::advance;
use callfile::spool::base_name;
use callfile::spool::join_path;
use callfile::SpoolError;
use callfile::SpoolStep;

#[test]
fn success_path_reaches_delivered() {
    let mut step = SpoolStep::CreateTmpFile;
    step = advance(step, true).unwrap();
    assert_eq!(step, SpoolStep::OpenTmpFile);
    step = advance(step, true).unwrap();
    assert_eq!(step, SpoolStep::WriteText);
    step = advance(step, true).unwrap();
    assert_eq!(step, SpoolStep::MoveToSpool);
    step = advance(step, true).unwrap();
    assert_eq!(step, SpoolStep::Delivered);
}

#[test]
fn create_failure_is_surfaced() {
    assert_eq!(
        advance(SpoolStep::CreateTmpFile, false),
        Err(SpoolError::FailedToCreateTmpFile)
    );
}

#[test]
fn open_failure_is_surfaced() {
    assert_eq!(
        advance(SpoolStep::OpenTmpFile, false),
        Err(SpoolError::FailedToOpenTmpFileForWriting)
    );
}

#[test]
fn write_failure_is_surfaced() {
    assert_eq!(
        advance(SpoolStep::WriteText, false),
        Err(SpoolError::FailedToWriteToTmpFile)
    );
}

#[test]
fn move_failure_is_surfaced() {
    assert_eq!(
        advance(SpoolStep::MoveToSpool, false),
        Err(SpoolError::FailedToMoveToSpool)
    );
}

#[test]
fn base_name_takes_suffix_after_last_slash() {
    assert_eq!(base_name("/tmp/abc123"), Some("abc123".to_owned()));
    assert_eq!(base_name("a/b/c"), Some("c".to_owned()));
    assert_eq!(base_name("plain"), Some("plain".to_owned()));
}

#[test]
fn base_name_of_directory_path_is_none() {
    assert_eq!(base_name("/tmp/"), None);
    assert_eq!(base_name("/"), None);
    assert_eq!(base_name(""), None);
}

#[test]
fn join_path_inserts_one_slash() {
    assert_eq!(
        join_path("/var/spool/asterisk/outgoing", "call42"),
        "/var/spool/asterisk/outgoing/call42"
    );
}

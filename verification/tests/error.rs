use chp::error::ChpError;

#[test]
fn every_error_has_its_own_message() {
    let all = [
        ChpError::RootNotFound,
        ChpError::DirectoryReadError,
        ChpError::ConfigReadError,
        ChpError::ConfigParseError,
        ChpError::DirectoryWalkError,
        ChpError::NonEmptyDirectory,
        ChpError::GitInitError,
        ChpError::ProcessSpawnError,
    ];
    for (i, a) in all.iter().enumerate() {
        assert!(!a.message().is_empty());
        for b in &all[i + 1..] {
            assert_ne!(a.message(), b.message());
        }
    }
}

#[test]
fn messages_name_what_went_wrong() {
    assert_eq!(ChpError::RootNotFound.message(), "Could not find root (chp.toml not found)");
    assert_eq!(ChpError::ConfigReadError.message(), "Could not read chp.toml");
    assert_eq!(ChpError::GitInitError.message(), "Could not initialize git");
    assert_eq!(ChpError::NonEmptyDirectory.message(), "Project folder is not empty");
}

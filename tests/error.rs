use socli::error::{IoAsyncHandlerError, PlayerError, PriceError, RepoError, StatsError, StrategyError};

#[test]
fn repo_error_messages() {
    assert_eq!(RepoError::Io.message(), "io");
    assert_eq!(RepoError::Read("x".to_string()).message(), "read failed: x");
    assert_eq!(RepoError::Write("y".to_string()).message(), "write failed: y");
    assert_eq!(RepoError::Other.message(), "data access failed");
    assert_eq!(RepoError::Cache.message(), "data access failed");
}

#[test]
fn service_errors_carry_repo_messages() {
    assert_eq!(PlayerError::from_repo(RepoError::Io), PlayerError::Data("io".to_string()));
    assert_eq!(PriceError::from_repo(RepoError::Other), PriceError::Data("data access failed".to_string()));
    assert_eq!(StatsError::from_repo(RepoError::Read("r".to_string())), StatsError::Data("read failed: r".to_string()));
    assert_eq!(StrategyError::from_repo(RepoError::Cache).message(), "data access failed");
    assert_eq!(StrategyError::Script("s".to_string()).message(), "script error: s");
    assert_eq!(
        IoAsyncHandlerError::from_player(PlayerError::Data("d".to_string())),
        IoAsyncHandlerError::Player("d".to_string())
    );
}

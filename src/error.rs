use vstd::prelude::*;

verus! {

/// A failure to read or write data.
#[derive(Debug, PartialEq, Eq)]
pub enum RepoError {
    Io,
    Read(String),
    Write(String),
    Other,
    Cache,
}

/// The text that describes `e`.
pub open spec fn repo_error_text(e: RepoError) -> Seq<char> {
    match e {
        RepoError::Io => "io"@,
        RepoError::Read(msg) => "read failed: "@ + msg@,
        RepoError::Write(msg) => "write failed: "@ + msg@,
        RepoError::Other => "data access failed"@,
        RepoError::Cache => "data access failed"@,
    }
}

impl RepoError {
    /// The text that describes the error.
    pub fn message(&self) -> (r: String)
        ensures
            r@ == repo_error_text(*self),
    {
        match self {
            RepoError::Io => String::from_str("io"),
            RepoError::Read(msg) => String::from_str("read failed: ").concat(msg.as_str()),
            RepoError::Write(msg) => String::from_str("write failed: ").concat(msg.as_str()),
            RepoError::Other => String::from_str("data access failed"),
            RepoError::Cache => String::from_str("data access failed"),
        }
    }
}

/// A failure of the player service.
#[derive(Debug, PartialEq, Eq)]
pub enum PlayerError {
    Data(String),
}

/// A failure of the price service.
#[derive(Debug, PartialEq, Eq)]
pub enum PriceError {
    Data(String),
}

/// A failure of the stats service.
#[derive(Debug, PartialEq, Eq)]
pub enum StatsError {
    Data(String),
}

/// A failure of the injury service.
#[derive(Debug, PartialEq, Eq)]
pub enum InjuryError {
    Data(String),
}

/// A failure while running strategies: of data, of one script, or of the configuration.
#[derive(Debug, PartialEq, Eq)]
pub enum StrategyError {
    Data(String),
    Script(String),
    Config(String),
}

/// A failure while handling an intent.
#[derive(Debug, PartialEq, Eq)]
pub enum IoAsyncHandlerError {
    Player(String),
}

impl PlayerError {
    /// The text that describes the error.
    pub fn message(&self) -> (r: String)
        ensures
            self matches PlayerError::Data(m) && r@ == m@,
    {
        match self {
            PlayerError::Data(m) => m.clone(),
        }
    }
}

impl PriceError {
    /// The text that describes the error.
    pub fn message(&self) -> (r: String)
        ensures
            self matches PriceError::Data(m) && r@ == m@,
    {
        match self {
            PriceError::Data(m) => m.clone(),
        }
    }
}

impl StatsError {
    /// The text that describes the error.
    pub fn message(&self) -> (r: String)
        ensures
            self matches StatsError::Data(m) && r@ == m@,
    {
        match self {
            StatsError::Data(m) => m.clone(),
        }
    }
}

impl InjuryError {
    /// The text that describes the error.
    pub fn message(&self) -> (r: String)
        ensures
            self matches InjuryError::Data(m) && r@ == m@,
    {
        match self {
            InjuryError::Data(m) => m.clone(),
        }
    }
}

/// The text that describes a strategy failure.
pub open spec fn strategy_error_text(e: StrategyError) -> Seq<char> {
    match e {
        StrategyError::Data(msg) => msg@,
        StrategyError::Script(msg) => "script error: "@ + msg@,
        StrategyError::Config(msg) => "configuration error: "@ + msg@,
    }
}

impl StrategyError {
    /// The text that describes the error.
    pub fn message(&self) -> (r: String)
        ensures
            r@ == strategy_error_text(*self),
    {
        match self {
            StrategyError::Data(m) => m.clone(),
            StrategyError::Script(m) => String::from_str("script error: ").concat(m.as_str()),
            StrategyError::Config(m) => String::from_str("configuration error: ").concat(m.as_str()),
        }
    }
}

impl PlayerError {
    /// The data error that carries the text of `e`.
    pub fn from_repo(e: RepoError) -> (r: PlayerError)
        ensures
            r matches PlayerError::Data(m) && m@ == repo_error_text(e),
    {
        PlayerError::Data(e.message())
    }
}

impl PriceError {
    /// The data error that carries the text of `e`.
    pub fn from_repo(e: RepoError) -> (r: PriceError)
        ensures
            r matches PriceError::Data(m) && m@ == repo_error_text(e),
    {
        PriceError::Data(e.message())
    }
}

impl StatsError {
    /// The data error that carries the text of `e`.
    pub fn from_repo(e: RepoError) -> (r: StatsError)
        ensures
            r matches StatsError::Data(m) && m@ == repo_error_text(e),
    {
        StatsError::Data(e.message())
    }
}

impl InjuryError {
    /// The data error that carries the text of `e`.
    pub fn from_repo(e: RepoError) -> (r: InjuryError)
        ensures
            r matches InjuryError::Data(m) && m@ == repo_error_text(e),
    {
        InjuryError::Data(e.message())
    }
}

impl StrategyError {
    /// The data error that carries the text of `e`.
    pub fn from_repo(e: RepoError) -> (r: StrategyError)
        ensures
            r matches StrategyError::Data(m) && m@ == repo_error_text(e),
    {
        StrategyError::Data(e.message())
    }
}

impl IoAsyncHandlerError {
    /// The handler error that carries the text of a player service failure.
    pub fn from_player(e: PlayerError) -> (r: IoAsyncHandlerError)
        ensures
            e matches PlayerError::Data(m) && r matches IoAsyncHandlerError::Player(t) && t@ == m@,
    {
        IoAsyncHandlerError::Player(e.message())
    }
}

} // verus!

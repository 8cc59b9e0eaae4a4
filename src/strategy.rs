use vstd::prelude::*;
use crate::error::StrategyError;
use crate::model::{Decision, Player, ScriptDecision};
use crate::text::{first_group, regex_group_one};

verus! {

/// The file name of a script without its extension.
pub open spec fn strategy_name(file_name: Seq<char>) -> Seq<char> {
    match regex_group_one("(.*)\\.[^.]+$"@, file_name) {
        Some(g) => g,
        None => file_name,
    }
}

/// Strategies run only on a player with a price history and stats.
pub open spec fn ready_for_strategies(p: Player) -> bool {
    p.prices@.len() > 0 && p.stats is Some
}

/// Relies on `std::path::Path::file_name` and `OsStr::to_str`: the last component of `path`,
/// when it has one and it is valid UTF-8.
#[verifier::external_body]
fn path_file_name(path: &str) -> (r: Option<String>) {
    let name = std::path::Path::new(path).file_name()?;
    match name.to_str() {
        Some(s) => Some(s.to_string()),
        None => None,
    }
}

/// What running one script gave.
#[derive(Debug)]
pub enum ScriptOutcome {
    /// The script file could not be read.
    Unreadable,
    /// The script failed to compile or to run.
    Failed(String),
    /// The script ran and returned nothing.
    NoDecision,
    /// The script ran and returned a decision.
    Decided(ScriptDecision),
}

impl Clone for ScriptOutcome {
    fn clone(&self) -> (r: Self)
        ensures
            r == *self,
    {
        match self {
            ScriptOutcome::Unreadable => ScriptOutcome::Unreadable,
            ScriptOutcome::Failed(m) => ScriptOutcome::Failed(m.clone()),
            ScriptOutcome::NoDecision => ScriptOutcome::NoDecision,
            ScriptOutcome::Decided(sd) => ScriptOutcome::Decided(sd.clone()),
        }
    }
}

/// One script of the strategies directory and what running it gave.
#[derive(Debug)]
pub struct ScriptRun {
    pub name: String,
    pub outcome: ScriptOutcome,
}

/// A script that failed, with the failure.
#[derive(Debug)]
pub struct ScriptFailure {
    pub strategy: String,
    pub message: String,
}

/// The decisions of one evaluation batch, and the scripts that failed in it.
#[derive(Debug)]
pub struct StrategyReport {
    pub decisions: Vec<Decision>,
    pub failures: Vec<ScriptFailure>,
}

/// `d` is the decision that the script `name` returned as `sd` for `p`.
pub open spec fn decision_for(d: Decision, p: Player, name: Seq<char>, sd: ScriptDecision) -> bool {
    &&& d.action == sd.action
    &&& d.comment == sd.comment
    &&& d.player_slug == p.slug
    &&& d.player_name == p.display_name
    &&& d.strategy@ == name
}

/// The runs whose script returned a decision, in order.
pub open spec fn decided_runs(runs: Seq<ScriptRun>) -> Seq<ScriptRun> {
    runs.filter(|r: ScriptRun| r.outcome is Decided)
}

/// The runs whose script failed, in order.
pub open spec fn failed_runs(runs: Seq<ScriptRun>) -> Seq<ScriptRun> {
    runs.filter(|r: ScriptRun| r.outcome is Failed)
}

/// Runs the strategy scripts found in one directory against one player at a time.
pub struct StrategyServiceImpl {
    pub strategy_dir: String,
}

impl StrategyServiceImpl {
    pub fn new(strategy_dir: &str) -> (r: StrategyServiceImpl)
        ensures
            r.strategy_dir@ == strategy_dir@,
    {
        StrategyServiceImpl { strategy_dir: String::from_str(strategy_dir) }
    }

    /// The name of the strategy in a script file named `file_name`: the name without its
    /// extension, or the whole name when it has none.
    pub fn strategy_name_of(file_name: &str) -> (r: String)
        ensures
            r@ == strategy_name(file_name@),
    {
        match first_group("(.*)\\.[^.]+$", file_name) {
            Some(g) => g,
            None => String::from_str(file_name),
        }
    }

    /// The name of the strategy in the script at `path`: its file name without extension.
    pub fn extract_strategy_name(&self, path: &str) -> (r: String)
        ensures
            exists|f: Seq<char>| r@ == strategy_name(f),
    {
        match path_file_name(path) {
            Some(f) => Self::strategy_name_of(f.as_str()),
            None => Self::strategy_name_of(path),
        }
    }

    /// The error for a strategies directory that cannot be read.
    pub fn missing_directory_error(&self) -> (r: StrategyError)
        ensures
            r matches StrategyError::Config(m) && m@ == "failed to access directory `"@
                + self.strategy_dir@ + "`"@,
    {
        let m = String::from_str("failed to access directory `").concat(self.strategy_dir.as_str()).concat("`");
        StrategyError::Config(m)
    }

    /// Whether scripts may run on `player`: it has a price history and stats.
    pub fn is_ready(player: &Player) -> (r: bool)
        ensures
            r == ready_for_strategies(*player),
    {
        player.prices.len() > 0 && player.stats.is_some()
    }

    /// The decision of the script `strategy_name` for `player`, from what running it gave:
    /// none when the player lacks prices or stats, a script error when the script failed.
    pub fn run(&self, player: &Player, strategy_name: &str, outcome: ScriptOutcome) -> (r: Result<
        Option<Decision>,
        StrategyError,
    >)
        ensures
            !ready_for_strategies(*player) ==> r == Ok::<Option<Decision>, StrategyError>(None),
            ready_for_strategies(*player) ==> match outcome {
                ScriptOutcome::Decided(sd) => r matches Ok(Some(d)) && decision_for(
                    d,
                    *player,
                    strategy_name@,
                    sd,
                ),
                ScriptOutcome::Failed(m) => r matches Err(StrategyError::Script(e)) && e == m,
                _ => r == Ok::<Option<Decision>, StrategyError>(None),
            },
    {
        if !Self::is_ready(player) {
            return Ok(None);
        }
        match outcome {
            ScriptOutcome::Decided(sd) => Ok(Some(sd.to_decision(player, strategy_name))),
            ScriptOutcome::Failed(m) => Err(StrategyError::Script(m)),
            _ => Ok(None),
        }
    }

    /// The decisions of every script for `player`, in the order of `runs`; a failing script
    /// adds a failure and no decision, and the others still count. A player without prices or
    /// stats gets no decision and no failure.
    pub fn run_all(&self, player: &Player, runs: Vec<ScriptRun>) -> (r: StrategyReport)
        ensures
            !ready_for_strategies(*player) ==> r.decisions@.len() == 0 && r.failures@.len() == 0,
            ready_for_strategies(*player) ==> {
                &&& r.decisions@.len() == decided_runs(runs@).len()
                &&& forall|k: int| 0 <= k < r.decisions@.len() ==> {
                    let run = #[trigger] decided_runs(runs@)[k];
                    run.outcome matches ScriptOutcome::Decided(sd) && decision_for(
                        r.decisions@[k],
                        *player,
                        run.name@,
                        sd,
                    )
                }
                &&& r.failures@.len() == failed_runs(runs@).len()
                &&& forall|k: int| 0 <= k < r.failures@.len() ==> {
                    let run = #[trigger] failed_runs(runs@)[k];
                    &&& r.failures@[k].strategy == run.name
                    &&& run.outcome matches ScriptOutcome::Failed(m) && r.failures@[k].message@
                        == "script error: "@ + m@
                }
            },
    {
        let mut decisions: Vec<Decision> = Vec::new();
        let mut failures: Vec<ScriptFailure> = Vec::new();
        if !Self::is_ready(player) {
            return StrategyReport { decisions, failures };
        }
        let ghost all = runs@;
        let mut i: usize = 0;
        while i < runs.len()
            invariant
                i <= all.len(),
                all == runs@,
                ready_for_strategies(*player),
                decisions@.len() == decided_runs(all.subrange(0, i as int)).len(),
                forall|k: int| 0 <= k < decisions@.len() ==> {
                    let run = #[trigger] decided_runs(all.subrange(0, i as int))[k];
                    run.outcome matches ScriptOutcome::Decided(sd) && decision_for(
                        decisions@[k],
                        *player,
                        run.name@,
                        sd,
                    )
                },
                failures@.len() == failed_runs(all.subrange(0, i as int)).len(),
                forall|k: int| 0 <= k < failures@.len() ==> {
                    let run = #[trigger] failed_runs(all.subrange(0, i as int))[k];
                    &&& failures@[k].strategy == run.name
                    &&& run.outcome matches ScriptOutcome::Failed(m) && failures@[k].message@
                        == "script error: "@ + m@
                },
            decreases all.len() - i,
        {
            proof {
                reveal(Seq::filter);
                assert(all.subrange(0, i + 1).drop_last() =~= all.subrange(0, i as int));
            }
            let outcome = runs[i].outcome.clone();
            let result = self.run(player, runs[i].name.as_str(), outcome);
            match result {
                Ok(Some(d)) => {
                    decisions.push(d);
                },
                Ok(None) => {},
                Err(e) => {
                    failures.push(ScriptFailure { strategy: runs[i].name.clone(), message: e.message() });
                },
            }
            i = i + 1;
        }
        assert(all.subrange(0, i as int) =~= all);
        StrategyReport { decisions, failures }
    }
}

} // verus!

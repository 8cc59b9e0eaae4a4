use socli::error::StrategyError;
use socli::model::{Player, Price, ScriptDecision, Stats};
use socli::strategy::{ScriptOutcome, ScriptRun, StrategyServiceImpl};

fn player(prices: bool, stats: bool) -> Player {
    Player {
        slug: "player1".to_string(),
        display_name: "Player One".to_string(),
        birth_date: "2003-07-22T17:15:13Z".to_string(),
        team: None,
        prices: if prices {
            vec![Price {
                player_slug: "player1".to_string(),
                date: "2023-07-22T16:15:13Z".to_string(),
                eur: "40".to_string(),
                usd: "50".to_string(),
            }]
        } else {
            vec![]
        },
        stats: if stats { Some(Stats { player_slug: "player1".to_string(), score: 20, games: vec![] }) } else { None },
        injury: None,
        positions: vec!["G".to_string()],
        country: "US".to_string(),
        number: 3,
    }
}

fn runs() -> Vec<ScriptRun> {
    vec![
        ScriptRun { name: "broken".to_string(), outcome: ScriptOutcome::Failed("SyntaxError".to_string()) },
        ScriptRun {
            name: "buyer".to_string(),
            outcome: ScriptOutcome::Decided(ScriptDecision { action: "BUY".to_string(), comment: "cheap".to_string() }),
        },
        ScriptRun { name: "quiet".to_string(), outcome: ScriptOutcome::NoDecision },
        ScriptRun { name: "missing".to_string(), outcome: ScriptOutcome::Unreadable },
    ]
}

#[test]
fn strategy_tests_parse_player_slug() {
    let strategy_service = StrategyServiceImpl::new("fake");
    assert_eq!(strategy_service.extract_strategy_name("dir/test.js"), "test");
}

#[test]
fn strategy_name_without_extension_is_the_file_name() {
    assert_eq!(StrategyServiceImpl::strategy_name_of("README"), "README");
    assert_eq!(StrategyServiceImpl::strategy_name_of("a.b.js"), "a.b");
}

#[test]
fn broken_script_does_not_hide_the_valid_decision() {
    let svc = StrategyServiceImpl::new("dir");
    let report = svc.run_all(&player(true, true), runs());
    assert_eq!(report.decisions.len(), 1);
    let d = &report.decisions[0];
    assert_eq!(d.action, "BUY");
    assert_eq!(d.comment, "cheap");
    assert_eq!(d.player_slug, "player1");
    assert_eq!(d.player_name, "Player One");
    assert_eq!(d.strategy, "buyer");
    assert_eq!(report.failures.len(), 1);
    assert_eq!(report.failures[0].strategy, "broken");
    assert_eq!(report.failures[0].message, "script error: SyntaxError");
}

#[test]
fn player_without_prices_gets_no_decision() {
    let svc = StrategyServiceImpl::new("dir");
    let report = svc.run_all(&player(false, true), runs());
    assert!(report.decisions.is_empty());
    assert!(report.failures.is_empty());
    let report = svc.run_all(&player(true, false), runs());
    assert!(report.decisions.is_empty());
}

#[test]
fn run_maps_each_outcome() {
    let svc = StrategyServiceImpl::new("dir");
    let p = player(true, true);
    let r = svc.run(&p, "s", ScriptOutcome::Failed("boom".to_string()));
    assert_eq!(r, Err(StrategyError::Script("boom".to_string())));
    assert_eq!(svc.run(&p, "s", ScriptOutcome::NoDecision), Ok(None));
    let r = svc.run(&p, "s", ScriptOutcome::Decided(ScriptDecision { action: "SELL".to_string(), comment: "c".to_string() }));
    assert_eq!(r.unwrap().unwrap().strategy, "s");
    let r = svc.run(&player(false, false), "s", ScriptOutcome::Failed("boom".to_string()));
    assert_eq!(r, Ok(None));
}

#[test]
fn missing_directory_is_a_configuration_error() {
    let svc = StrategyServiceImpl::new("/no/such/dir");
    let e = svc.missing_directory_error();
    assert_eq!(e, StrategyError::Config("failed to access directory `/no/such/dir`".to_string()));
    assert_eq!(e.message(), "configuration error: failed to access directory `/no/such/dir`");
}

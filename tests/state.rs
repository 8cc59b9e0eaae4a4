use socli::model::{Decision, Game, Injury, Player, Price, Stats};
use socli::state::{AppState, Panel};

fn player(slug: &str, name: &str) -> Player {
    Player {
        slug: slug.to_string(),
        display_name: name.to_string(),
        birth_date: "2003-07-22T17:15:13Z".to_string(),
        team: Some("team".to_string()),
        prices: vec![],
        stats: None,
        injury: None,
        positions: vec![],
        country: "US".to_string(),
        number: 23,
    }
}

fn price(slug: &str, eur: &str) -> Price {
    Price {
        player_slug: slug.to_string(),
        date: "2023-07-22T16:15:13Z".to_string(),
        eur: eur.to_string(),
        usd: eur.to_string(),
    }
}

fn decision(action: &str, slug: &str) -> Decision {
    Decision {
        action: action.to_string(),
        player_slug: slug.to_string(),
        player_name: slug.to_string(),
        strategy: "s".to_string(),
        comment: String::new(),
    }
}

fn roster() -> AppState {
    AppState::initialize(vec![player("a", "A"), player("b", "B"), player("c", "C")])
}

fn players_of(s: &AppState) -> Vec<Player> {
    match s {
        AppState::Initialized { players, .. } => players.clone(),
        _ => panic!("not initialized"),
    }
}

fn decisions_of(s: &AppState) -> Vec<Decision> {
    match s {
        AppState::Initialized { decisions, .. } => decisions.clone(),
        _ => panic!("not initialized"),
    }
}

#[test]
fn merge_on_unknown_slug_changes_nothing() {
    let mut s = roster();
    let before = players_of(&s);
    s.merge_prices("zzz", vec![price("zzz", "1.00")]);
    s.merge_stats(vec![Stats { player_slug: "zzz".to_string(), score: 10, games: vec![] }]);
    s.merge_injuries(vec![Injury {
        player_slug: "zzz".to_string(),
        date: "2023-01-01T00:00:00Z".to_string(),
        update_date: None,
        description: "knee".to_string(),
        comment: String::new(),
    }]);
    assert_eq!(players_of(&s), before);
}

#[test]
fn merge_prices_replaces_the_matching_player() {
    let mut s = roster();
    s.merge_prices("b", vec![price("b", "40"), price("b", "60")]);
    let ps = players_of(&s);
    assert_eq!(ps[1].prices.len(), 2);
    assert_eq!(ps[1].prices[0].eur, "40");
    assert!(ps[0].prices.is_empty());
    s.merge_prices("b", vec![price("b", "70")]);
    assert_eq!(players_of(&s)[1].prices, vec![price("b", "70")]);
}

#[test]
fn merge_stats_and_injuries_update_matching_players() {
    let mut s = roster();
    s.merge_stats(vec![
        Stats {
            player_slug: "c".to_string(),
            score: 30,
            games: vec![Game { date: "d".to_string(), did_play: true, minutes_played: 30, score: 40 }],
        },
        Stats { player_slug: "x".to_string(), score: 1, games: vec![] },
    ]);
    let inj = Injury {
        player_slug: "a".to_string(),
        date: "2023-01-01T00:00:00Z".to_string(),
        update_date: Some("2023-01-02T00:00:00Z".to_string()),
        description: "ankle".to_string(),
        comment: "out".to_string(),
    };
    s.merge_injuries(vec![inj.clone()]);
    let ps = players_of(&s);
    assert_eq!(ps[2].stats.as_ref().map(|st| st.score), Some(30));
    assert!(ps[0].stats.is_none());
    assert_eq!(ps[0].injury, Some(inj));
    assert!(ps[1].injury.is_none());
}

#[test]
fn merge_decisions_replaces_those_of_the_slug() {
    let mut s = roster();
    s.merge_decisions("slug1", vec![decision("A", "slug1")]);
    s.merge_decisions("slug2", vec![decision("B", "slug2")]);
    s.merge_decisions("slug1", vec![decision("C", "slug1")]);
    assert_eq!(decisions_of(&s), vec![decision("B", "slug2"), decision("C", "slug1")]);
}

#[test]
fn merge_decisions_with_nothing_removes_the_slug() {
    let mut s = roster();
    s.merge_decisions("a", vec![decision("BUY", "a"), decision("SELL", "a")]);
    s.merge_decisions("b", vec![decision("BUY", "b")]);
    s.update_selection(2, Panel::Decisions);
    s.merge_decisions("a", vec![]);
    assert_eq!(decisions_of(&s), vec![decision("BUY", "b")]);
    match s {
        AppState::Initialized { selected_decision, .. } => assert_eq!(selected_decision, 0),
        _ => panic!("not initialized"),
    }
}

#[test]
fn update_selection_clamps_to_last_player() {
    let mut s = roster();
    s.update_selection(999, Panel::Players);
    match &s {
        AppState::Initialized { selected_player, .. } => assert_eq!(*selected_player, 2),
        _ => panic!("not initialized"),
    }
    s.update_selection(1, Panel::Players);
    match &s {
        AppState::Initialized { selected_player, .. } => assert_eq!(*selected_player, 1),
        _ => panic!("not initialized"),
    }
}

#[test]
fn update_selection_on_empty_decisions_keeps_zero() {
    let mut s = roster();
    s.update_selection(5, Panel::Decisions);
    s.update_selection(5, Panel::Logs);
    match &s {
        AppState::Initialized { selected_decision, selected_player, .. } => {
            assert_eq!(*selected_decision, 0);
            assert_eq!(*selected_player, 0);
        }
        _ => panic!("not initialized"),
    }
}

#[test]
fn state_before_load_ignores_updates() {
    let mut s = AppState::Init;
    s.update_selection(3, Panel::Players);
    s.merge_prices("a", vec![price("a", "1")]);
    s.merge_decisions("a", vec![decision("BUY", "a")]);
    assert!(!s.is_initialized());
    assert!(s.get_player("a").is_none());
}

#[test]
fn get_player_finds_by_slug() {
    let s = roster();
    assert_eq!(s.get_player("b").map(|p| p.display_name.clone()), Some("B".to_string()));
    assert!(s.get_player("q").is_none());
}

#[test]
fn clear_decisions_empties_the_list() {
    let mut s = roster();
    s.merge_decisions("a", vec![decision("BUY", "a")]);
    s.clear_decisions();
    assert!(decisions_of(&s).is_empty());
}

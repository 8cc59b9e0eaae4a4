use socli::model::{Game, Player, ScriptDecision, Stats};

fn game(did_play: bool, score: u64) -> Game {
    Game { date: "2023-07-22T16:15:13Z".to_string(), did_play, minutes_played: if did_play { 20 } else { 0 }, score }
}

fn player(slug: &str, score: Option<i64>) -> Player {
    Player {
        slug: slug.to_string(),
        display_name: slug.to_uppercase(),
        birth_date: String::new(),
        team: None,
        prices: vec![],
        stats: score.map(|s| Stats { player_slug: slug.to_string(), score: s, games: vec![] }),
        injury: None,
        positions: vec![],
        country: String::new(),
        number: 0,
    }
}

#[test]
fn game_scores_and_played_count() {
    let stats = Stats { player_slug: "s".to_string(), score: 3, games: vec![game(true, 30), game(false, 0), game(true, 12)] };
    assert_eq!(stats.last_game_scores(), Some(vec![30, 0, 12]));
    assert_eq!(stats.played_games_count(), Some(2));
    let empty = Stats { player_slug: "s".to_string(), score: 3, games: vec![] };
    assert_eq!(empty.last_game_scores(), None);
    assert_eq!(empty.played_games_count(), None);
}

#[test]
fn rank_by_score() {
    let players = vec![player("a", Some(10)), player("b", Some(30)), player("c", Some(10)), player("d", Some(20))];
    assert_eq!(players[1].rank(&players), Some(1));
    assert_eq!(players[3].rank(&players), Some(2));
    assert_eq!(players[0].rank(&players), Some(3));
    assert_eq!(players[2].rank(&players), Some(4));
}

#[test]
fn rank_needs_every_score() {
    let players = vec![player("a", Some(10)), player("b", None)];
    assert_eq!(players[0].rank(&players), None);
    assert_eq!(players[1].rank(&players), None);
    let outsider = player("z", Some(5));
    assert_eq!(outsider.rank(&vec![player("a", Some(1))]), None);
}

#[test]
fn script_decision_to_decision() {
    let p = player("kz", Some(1));
    let d = ScriptDecision { action: "BUY".to_string(), comment: "why".to_string() }.to_decision(&p, "trend");
    assert_eq!(d.action, "BUY");
    assert_eq!(d.comment, "why");
    assert_eq!(d.player_slug, "kz");
    assert_eq!(d.player_name, "KZ");
    assert_eq!(d.strategy, "trend");
}

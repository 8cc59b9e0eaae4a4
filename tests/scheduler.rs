use socli::model::Player;
use socli::scheduler::RefreshScheduler;

fn player(slug: String) -> Player {
    Player {
        slug: slug.clone(),
        display_name: slug,
        birth_date: String::new(),
        team: None,
        prices: vec![],
        stats: None,
        injury: None,
        positions: vec![],
        country: String::new(),
        number: 0,
    }
}

#[test]
fn twelve_ticks_on_twelve_players() {
    let players: Vec<Player> = (0..12).map(|i| player(format!("player{}", i))).collect();
    let mut sched = RefreshScheduler::new();
    let mut refreshed = vec![];
    let mut bulks = vec![];
    for t in 0..12 {
        let acts = sched.tick(&players);
        refreshed.push(acts.refresh_prices.expect("a refresh each tick"));
        if let Some(b) = acts.bulk_refresh {
            bulks.push((t + 1, b));
        }
    }
    let expected: Vec<String> = (0..12).map(|i| format!("player{}", i)).collect();
    assert_eq!(refreshed, expected);
    assert_eq!(bulks.len(), 2);
    assert_eq!(bulks[0].0, 5);
    assert_eq!(bulks[0].1, vec!["player0", "player1", "player2", "player3", "player4"]);
    assert_eq!(bulks[1].0, 10);
    assert_eq!(bulks[1].1, vec!["player5", "player6", "player7", "player8", "player9"]);
    assert_eq!(sched.pending, vec!["player10".to_string(), "player11".to_string()]);
    assert_eq!(sched.index, 0);
}

#[test]
fn batch_carries_over_when_roster_is_short() {
    let players: Vec<Player> = (0..3).map(|i| player(format!("guard{}", i))).collect();
    let mut sched = RefreshScheduler::new();
    let mut bulks = vec![];
    for _ in 0..5 {
        if let Some(b) = sched.tick(&players).bulk_refresh {
            bulks.push(b);
        }
    }
    assert_eq!(bulks, vec![vec!["guard0", "guard1", "guard2", "guard0", "guard1"]]);
}

#[test]
fn empty_roster_asks_for_nothing() {
    let mut sched = RefreshScheduler::new();
    let acts = sched.tick(&vec![]);
    assert!(acts.refresh_prices.is_none());
    assert!(acts.bulk_refresh.is_none());
    assert_eq!(sched.index, 0);
}

use socli::action::Key;
use socli::app::{batch_id, App, AppReturn, IoEvent};
use socli::model::{Player, Price};
use socli::scheduler::RefreshScheduler;
use socli::state::{AppState, Panel};

fn player(slug: &str) -> Player {
    Player {
        slug: slug.to_string(),
        display_name: slug.to_string(),
        birth_date: String::new(),
        team: None,
        prices: vec![],
        stats: None,
        injury: None,
        positions: vec![],
        country: String::new(),
        number: 0,
    }
}

fn loaded_app(n: usize) -> App {
    let mut app = App::new();
    app.initialize((0..n).map(|i| player(&format!("player{}", i))).collect());
    app
}

fn selected(app: &App) -> (usize, usize, Panel) {
    match app.state() {
        AppState::Initialized { selected_player, selected_decision, selected_panel, .. } => {
            (*selected_player, *selected_decision, *selected_panel)
        }
        _ => panic!("not initialized"),
    }
}

#[test]
fn initialize_requests_first_prices() {
    let mut app = loaded_app(3);
    assert!(app.is_loading());
    let out = app.take_outbox();
    assert_eq!(out.len(), 1);
    assert!(matches!(&out[0], IoEvent::LoadPlayerPrices(s) if s == "player0"));
    assert_eq!(app.actions().actions().len(), 7);
}

#[test]
fn keys_move_the_selection() {
    let mut app = loaded_app(30);
    app.take_outbox();
    assert_eq!(app.do_action(Key::Down), AppReturn::Continue);
    assert_eq!(selected(&app).0, 1);
    app.do_action(Key::PageDown);
    assert_eq!(selected(&app).0, 21);
    app.do_action(Key::PageDown);
    assert_eq!(selected(&app).0, 29);
    app.do_action(Key::Up);
    assert_eq!(selected(&app).0, 28);
    app.do_action(Key::PageUp);
    app.do_action(Key::PageUp);
    assert_eq!(selected(&app).0, 0);
    let out = app.take_outbox();
    assert!(matches!(&out[0], IoEvent::LoadPlayerPrices(s) if s == "player1"));
    assert_eq!(app.do_action(Key::Char('q')), AppReturn::Exit);
    assert_eq!(app.do_action(Key::Char('z')), AppReturn::Continue);
}

#[test]
fn tab_cycles_panels() {
    let mut app = loaded_app(2);
    app.do_action(Key::Tab);
    assert_eq!(selected(&app).2, Panel::Player);
    app.do_action(Key::Tab);
    app.do_action(Key::Tab);
    assert_eq!(selected(&app).2, Panel::Logs);
    app.do_action(Key::Tab);
    assert_eq!(selected(&app).2, Panel::Players);
}

#[test]
fn prices_loaded_trigger_strategies() {
    let mut app = loaded_app(2);
    app.take_outbox();
    let slug = "player1".to_string();
    app.on_prices_loaded(&slug, vec![Price { player_slug: slug.clone(), date: "d".to_string(), eur: "1".to_string(), usd: "1".to_string() }]);
    let out = app.take_outbox();
    assert_eq!(out.len(), 1);
    assert!(matches!(&out[0], IoEvent::RunStrategies(s) if s == "player1"));
    assert_eq!(app.state().get_player("player1").unwrap().prices.len(), 1);
    app.loaded();
    assert!(!app.is_loading());
}

#[test]
fn refresh_tick_dispatches_forced_and_bulk_refreshes() {
    let mut app = loaded_app(5);
    app.take_outbox();
    let mut sched = RefreshScheduler::new();
    for _ in 0..5 {
        app.refresh_tick(&mut sched);
    }
    let out = app.take_outbox();
    assert_eq!(out.len(), 7);
    assert!(matches!(&out[4], IoEvent::LoadPlayerPrices(s) if s == "player4"));
    assert!(matches!(&out[5], IoEvent::LoadPlayersStats(v) if v.len() == 5));
    assert!(matches!(&out[6], IoEvent::LoadPlayersInjury(v) if v.len() == 5));
}

#[test]
fn app_starts_unloaded_and_can_fail() {
    let mut app = App::new();
    assert!(!app.state().is_initialized());
    app.do_action(Key::Down);
    assert!(app.take_outbox().is_empty());
    app.error("boom".to_string());
    assert!(matches!(app.state(), AppState::Error(m) if m == "boom"));
}

#[test]
fn batch_ids() {
    assert_eq!(batch_id(&vec![]), "empty");
    assert_eq!(batch_id(&vec!["a".to_string(), "b".to_string(), "c".to_string()]), "a-c");
}

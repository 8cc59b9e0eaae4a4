use vstd::prelude::*;
use crate::action::{Action, Actions, Key, all_actions, first_with_key};
use crate::model::{Decision, Injury, Player, Price, Stats};
use crate::scheduler::{RefreshScheduler, after_tick, roster_slugs, tick_bulk, tick_refresh};
use crate::state::{AppState, Panel, selection_updated};

verus! {

/// Whether the program goes on after an input.
#[derive(Debug, Clone, Copy, PartialEq, Eq, Structural)]
pub enum AppReturn {
    Exit,
    Continue,
}

/// An intent: a unit of work for the intent queue.
#[derive(Debug)]
pub enum IoEvent {
    Initialize,
    LoadPlayerPrices(String),
    LoadPlayersStats(Vec<String>),
    LoadPlayersInjury(Vec<String>),
    RunStrategies(String),
}

/// An intent over plain values.
pub enum IoEventView {
    Initialize,
    LoadPlayerPrices(String),
    LoadPlayersStats(Seq<String>),
    LoadPlayersInjury(Seq<String>),
    RunStrategies(String),
}

impl View for IoEvent {
    type V = IoEventView;

    open spec fn view(&self) -> IoEventView {
        match self {
            IoEvent::Initialize => IoEventView::Initialize,
            IoEvent::LoadPlayerPrices(s) => IoEventView::LoadPlayerPrices(*s),
            IoEvent::LoadPlayersStats(v) => IoEventView::LoadPlayersStats(v@),
            IoEvent::LoadPlayersInjury(v) => IoEventView::LoadPlayersInjury(v@),
            IoEvent::RunStrategies(s) => IoEventView::RunStrategies(*s),
        }
    }
}

/// The views of a sequence of intents.
pub open spec fn events_view(q: Seq<IoEvent>) -> Seq<IoEventView> {
    q.map_values(|e: IoEvent| e@)
}

/// What the input layer hands over: a key press, or a tick without input.
#[derive(Debug, Clone, Copy)]
pub enum InputEvent {
    Input(Key),
    Tick,
}

/// The application: its actions, its state, whether work is in flight, and the intents that
/// wait to be sent to the intent queue.
pub struct App {
    pub actions: Actions,
    pub is_loading: bool,
    pub state: AppState,
    pub outbox: Vec<IoEvent>,
}

/// The slug whose prices to load for the player at `index`: always when `force`, else only
/// when its price history is empty.
pub open spec fn price_request(s: AppState, index: int, force: bool) -> Option<String> {
    match s {
        AppState::Initialized { players, .. } => if 0 <= index < players@.len() && (force
            || players@[index].prices@.len() == 0) {
            Some(players@[index].slug)
        } else {
            None
        },
        _ => None,
    }
}

/// The intents that `price_request` gives.
pub open spec fn price_events(s: AppState, index: int, force: bool) -> Seq<IoEventView> {
    match price_request(s, index, force) {
        Some(slug) => seq![IoEventView::LoadPlayerPrices(slug)],
        None => Seq::empty(),
    }
}

/// `new` is `old` with `evs` queued in order; loading shows once anything was queued.
pub open spec fn dispatched(old: App, new: App, evs: Seq<IoEventView>) -> bool {
    &&& events_view(new.outbox@) == events_view(old.outbox@) + evs
    &&& new.is_loading == (old.is_loading || evs.len() > 0)
}

/// The selection of the active panel: 0 for a panel without selection.
pub open spec fn panel_selection(s: AppState) -> int {
    match s {
        AppState::Initialized { selected_panel, selected_player, selected_decision, .. } => match selected_panel {
            Panel::Players => selected_player as int,
            Panel::Decisions => selected_decision as int,
            _ => 0,
        },
        _ => 0,
    }
}

/// The length of the collection of the active panel: 0 for a panel without selection.
pub open spec fn panel_len(s: AppState) -> int {
    match s {
        AppState::Initialized { selected_panel, players, decisions, .. } => match selected_panel {
            Panel::Players => players@.len() as int,
            Panel::Decisions => decisions@.len() as int,
            _ => 0,
        },
        _ => 0,
    }
}

/// The selection `step` items up, stopping at the first.
pub open spec fn up_target(s: AppState, step: int) -> int {
    let sel = panel_selection(s);
    if sel > step {
        sel - step
    } else {
        0
    }
}

/// The selection `step` items down, stopping at the last.
pub open spec fn down_target(s: AppState, step: int) -> int {
    let sel = panel_selection(s);
    let len = panel_len(s);
    if sel + step < len - 1 {
        sel + step
    } else {
        len - 1
    }
}

/// The panel after `p` in the cycle players, player, decisions, logs.
pub open spec fn next_panel(p: Panel) -> Panel {
    match p {
        Panel::Players => Panel::Player,
        Panel::Player => Panel::Decisions,
        Panel::Decisions => Panel::Logs,
        Panel::Logs => Panel::Players,
    }
}

/// `new` is `old` with the selection of `panel` moved to `selection`, and the prices of a newly
/// selected player without price history requested.
pub open spec fn selection_moved(old: App, new: App, selection: int, panel: Panel) -> bool {
    &&& selection_updated(old.state, new.state, selection, panel)
    &&& new.actions == old.actions
    &&& dispatched(
        old,
        new,
        if panel == Panel::Players {
            price_events(new.state, selection, false)
        } else {
            Seq::empty()
        },
    )
}

/// `new` is `old` with the selection of the active panel moved `step` items up.
pub open spec fn went_up(old: App, new: App, step: int) -> bool {
    if old.state is Initialized {
        selection_moved(old, new, up_target(old.state, step), old.state->selected_panel)
    } else {
        new == old
    }
}

/// `new` is `old` with the selection of the active panel moved `step` items down.
pub open spec fn went_down(old: App, new: App, step: int) -> bool {
    if old.state is Initialized && panel_len(old.state) > 0 {
        selection_moved(old, new, down_target(old.state, step), old.state->selected_panel)
    } else {
        new == old
    }
}

/// `new` is `old` with the next panel active.
pub open spec fn panel_cycled(old: App, new: App) -> bool {
    if old.state is Initialized {
        &&& new.state is Initialized
        &&& new.state->selected_panel == next_panel(old.state->selected_panel)
        &&& new.state->players == old.state->players
        &&& new.state->decisions == old.state->decisions
        &&& new.state->selected_player == old.state->selected_player
        &&& new.state->selected_decision == old.state->selected_decision
        &&& new.actions == old.actions
        &&& new.outbox == old.outbox
        &&& new.is_loading == old.is_loading
    } else {
        new == old
    }
}

/// `new` is `old` without decisions.
pub open spec fn decisions_cleared(old: App, new: App) -> bool {
    if old.state is Initialized {
        &&& new.state is Initialized
        &&& new.state->decisions@.len() == 0
        &&& new.state->selected_decision == 0
        &&& new.state->players == old.state->players
        &&& new.state->selected_panel == old.state->selected_panel
        &&& new.state->selected_player == old.state->selected_player
        &&& new.actions == old.actions
        &&& new.outbox == old.outbox
        &&& new.is_loading == old.is_loading
    } else {
        new == old
    }
}

/// The intents that ask for strategies on each of `slugs`, in order.
pub open spec fn strategy_events(slugs: Seq<String>) -> Seq<IoEventView> {
    slugs.map_values(|s: String| IoEventView::RunStrategies(s))
}

/// The name of a bulk intent over `slugs`: its first and last slugs, or `empty`.
pub fn batch_id(slugs: &Vec<String>) -> (r: String)
    ensures
        slugs@.len() == 0 ==> r@ == "empty"@,
        slugs@.len() > 0 ==> r@ == slugs@[0]@ + "-"@ + slugs@.last()@,
{
    if slugs.len() == 0 {
        return String::from_str("empty");
    }
    let first = slugs[0].clone();
    first.concat("-").concat(slugs[slugs.len() - 1].as_str())
}

impl App {
    /// An application before the roster is loaded, with only the quit action.
    pub fn new() -> (r: App)
        ensures
            r.state is Init,
            r.actions.0@ == seq![Action::Quit],
            !r.is_loading,
            r.outbox@.len() == 0,
    {
        App { actions: Actions(vec![Action::Quit]), is_loading: false, state: AppState::Init, outbox: Vec::new() }
    }

    /// Queues `action` for the intent queue and shows loading.
    pub fn dispatch(&mut self, action: IoEvent)
        ensures
            dispatched(*old(self), *final(self), seq![action@]),
            final(self).actions == old(self).actions,
            final(self).state == old(self).state,
    {
        self.is_loading = true;
        self.outbox.push(action);
        assert(events_view(self.outbox@) =~= events_view(old(self).outbox@) + seq![action@]);
    }

    /// Hands out the queued intents, oldest first, and empties the queue.
    pub fn take_outbox(&mut self) -> (r: Vec<IoEvent>)
        ensures
            r@ == old(self).outbox@,
            final(self).outbox@.len() == 0,
            final(self).actions == old(self).actions,
            final(self).state == old(self).state,
            final(self).is_loading == old(self).is_loading,
    {
        let mut r: Vec<IoEvent> = Vec::new();
        std::mem::swap(&mut r, &mut self.outbox);
        r
    }

    pub fn actions(&self) -> (r: &Actions)
        ensures
            *r == self.actions,
    {
        &self.actions
    }

    pub fn state(&self) -> (r: &AppState)
        ensures
            *r == self.state,
    {
        &self.state
    }

    pub fn is_loading(&self) -> (r: bool)
        ensures
            r == self.is_loading,
    {
        self.is_loading
    }

    /// Marks the work in flight as done.
    pub fn loaded(&mut self)
        ensures
            !final(self).is_loading,
            final(self).actions == old(self).actions,
            final(self).state == old(self).state,
            final(self).outbox == old(self).outbox,
    {
        self.is_loading = false;
    }

    /// Puts the state in the failed phase with `msg`.
    pub fn error(&mut self, msg: String)
        ensures
            old(self).state.wf() ==> final(self).state.wf(),
            final(self).state == AppState::Error(msg),
            final(self).actions == old(self).actions,
            final(self).outbox == old(self).outbox,
            final(self).is_loading == old(self).is_loading,
    {
        self.state = AppState::Error(msg);
    }

    /// Asks for the prices of the player at `index`: always when `force`, else only when it has
    /// no price history yet.
    pub fn refresh_player_prices(&mut self, index: usize, force: bool)
        ensures
            dispatched(*old(self), *final(self), price_events(old(self).state, index as int, force)),
            final(self).actions == old(self).actions,
            final(self).state == old(self).state,
    {
        let request: Option<String> = match &self.state {
            AppState::Initialized { players, .. } => {
                if index < players.len() && (force || players[index].prices.len() == 0) {
                    Some(players[index].slug.clone())
                } else {
                    None
                }
            },
            _ => None,
        };
        match request {
            Some(slug) => self.dispatch(IoEvent::LoadPlayerPrices(slug)),
            None => {
                assert(events_view(self.outbox@) =~= events_view(old(self).outbox@) + Seq::<IoEventView>::empty());
            },
        }
    }

    /// Installs the loaded roster: all actions, selections at 0, no decision, and the prices of
    /// the first player requested when it has none.
    pub fn initialize(&mut self, players: Vec<Player>)
        ensures
            final(self).state.wf(),
            final(self).state is Initialized,
            final(self).state->players@ == players@,
            final(self).state->decisions@.len() == 0,
            final(self).state->selected_player == 0,
            final(self).state->selected_decision == 0,
            final(self).state->selected_panel == Panel::Players,
            final(self).actions.0@ == all_actions(),
            events_view(final(self).outbox@) == events_view(old(self).outbox@) + price_events(
                final(self).state,
                0,
                false,
            ),
    {
        self.actions = Actions(Action::iterator());
        self.state = AppState::initialize(players);
        self.refresh_player_prices(0, false);
    }

    /// Asks for the stats of `player_slugs`.
    pub fn refresh_players_stats(&mut self, player_slugs: &Vec<String>)
        ensures
            dispatched(
                *old(self),
                *final(self),
                if old(self).state is Initialized {
                    seq![IoEventView::LoadPlayersStats(player_slugs@)]
                } else {
                    Seq::empty()
                },
            ),
            final(self).actions == old(self).actions,
            final(self).state == old(self).state,
    {
        if self.state.is_initialized() {
            self.dispatch(IoEvent::LoadPlayersStats(player_slugs.clone()));
        } else {
            assert(events_view(self.outbox@) =~= events_view(old(self).outbox@) + Seq::<IoEventView>::empty());
        }
    }

    /// Asks for the injuries of `player_slugs`.
    pub fn refresh_players_injury(&mut self, player_slugs: &Vec<String>)
        ensures
            dispatched(
                *old(self),
                *final(self),
                if old(self).state is Initialized {
                    seq![IoEventView::LoadPlayersInjury(player_slugs@)]
                } else {
                    Seq::empty()
                },
            ),
            final(self).actions == old(self).actions,
            final(self).state == old(self).state,
    {
        if self.state.is_initialized() {
            self.dispatch(IoEvent::LoadPlayersInjury(player_slugs.clone()));
        } else {
            assert(events_view(self.outbox@) =~= events_view(old(self).outbox@) + Seq::<IoEventView>::empty());
        }
    }

    /// Asks for the strategies to run on `player_slug`.
    pub fn run_strategies(&mut self, player_slug: &String)
        ensures
            !(old(self).state is Initialized) ==> *final(self) == *old(self),
            dispatched(
                *old(self),
                *final(self),
                if old(self).state is Initialized {
                    seq![IoEventView::RunStrategies(*player_slug)]
                } else {
                    Seq::empty()
                },
            ),
            final(self).actions == old(self).actions,
            final(self).state == old(self).state,
    {
        if self.state.is_initialized() {
            self.dispatch(IoEvent::RunStrategies(player_slug.clone()));
        } else {
            assert(events_view(self.outbox@) =~= events_view(old(self).outbox@) + Seq::<IoEventView>::empty());
        }
    }
    /// Sets the selection of `panel` to `selection`, clamped; on the players panel, asks for
    /// the prices of the player at `selection` when it has none.
    pub fn update_selection(&mut self, selection: usize, panel: Panel)
        ensures
            old(self).state.wf() ==> final(self).state.wf(),
            selection_moved(*old(self), *final(self), selection as int, panel),
    {
        self.state.update_selection(selection, panel);
        if panel == Panel::Players {
            self.refresh_player_prices(selection, false);
        } else {
            assert(events_view(self.outbox@) =~= events_view(old(self).outbox@) + Seq::<IoEventView>::empty());
        }
    }

    /// Moves the selection of the active panel `step` items up, stopping at the first.
    pub fn go_up(&mut self, step: usize) -> (r: AppReturn)
        ensures
            old(self).state.wf() ==> final(self).state.wf(),
            r == AppReturn::Continue,
            went_up(*old(self), *final(self), step as int),
    {
        let current: Option<(usize, Panel)> = match &self.state {
            AppState::Initialized { selected_player, selected_panel, selected_decision, .. } => {
                let selected = match selected_panel {
                    Panel::Players => *selected_player,
                    Panel::Decisions => *selected_decision,
                    _ => 0,
                };
                Some((selected, *selected_panel))
            },
            _ => None,
        };
        match current {
            Some((selected, panel)) => {
                let selection = if selected > step {
                    selected - step
                } else {
                    0
                };
                self.update_selection(selection, panel);
            },
            None => {},
        }
        AppReturn::Continue
    }

    /// Moves the selection of the active panel `step` items down, stopping at the last.
    pub fn go_down(&mut self, step: usize) -> (r: AppReturn)
        ensures
            old(self).state.wf() ==> final(self).state.wf(),
            r == AppReturn::Continue,
            went_down(*old(self), *final(self), step as int),
    {
        let current: Option<(usize, usize, Panel)> = match &self.state {
            AppState::Initialized {
                players,
                decisions,
                selected_player,
                selected_panel,
                selected_decision,
            } => {
                let (len, selected) = match selected_panel {
                    Panel::Players => (players.len(), *selected_player),
                    Panel::Decisions => (decisions.len(), *selected_decision),
                    _ => (0, 0),
                };
                Some((len, selected, *selected_panel))
            },
            _ => None,
        };
        match current {
            Some((len, selected, panel)) => {
                if len > 0 {
                    let selection = if selected < len - 1 && step < (len - 1) - selected {
                        selected + step
                    } else {
                        len - 1
                    };
                    self.update_selection(selection, panel);
                }
            },
            None => {},
        }
        AppReturn::Continue
    }

    /// Removes every decision.
    pub fn clear_decisions(&mut self) -> (r: AppReturn)
        ensures
            old(self).state.wf() ==> final(self).state.wf(),
            r == AppReturn::Continue,
            decisions_cleared(*old(self), *final(self)),
    {
        self.state.clear_decisions();
        AppReturn::Continue
    }

    /// Makes the next panel active: players, player, decisions, logs, then players again.
    pub fn next_panel_selection(&mut self) -> (r: AppReturn)
        ensures
            old(self).state.wf() ==> final(self).state.wf(),
            r == AppReturn::Continue,
            panel_cycled(*old(self), *final(self)),
    {
        match &mut self.state {
            AppState::Initialized { selected_panel, .. } => {
                *selected_panel = match *selected_panel {
                    Panel::Players => Panel::Player,
                    Panel::Player => Panel::Decisions,
                    Panel::Decisions => Panel::Logs,
                    Panel::Logs => Panel::Players,
                };
            },
            _ => {},
        }
        AppReturn::Continue
    }

    /// Handles a key press through the first action bound to it; an unbound key changes nothing.
    pub fn do_action(&mut self, key: Key) -> (r: AppReturn)
        ensures
            old(self).state.wf() ==> final(self).state.wf(),
            ({
                let i = first_with_key(old(self).actions.0@, key);
                &&& i < 0 ==> r == AppReturn::Continue && *final(self) == *old(self)
                &&& i >= 0 ==> match old(self).actions.0@[i] {
                    Action::Quit => r == AppReturn::Exit && *final(self) == *old(self),
                    Action::Up => r == AppReturn::Continue && went_up(*old(self), *final(self), 1),
                    Action::Down => r == AppReturn::Continue && went_down(*old(self), *final(self), 1),
                    Action::PageUp => r == AppReturn::Continue && went_up(*old(self), *final(self), 20),
                    Action::PageDown => r == AppReturn::Continue && went_down(*old(self), *final(self), 20),
                    Action::Backspace => r == AppReturn::Continue && decisions_cleared(*old(self), *final(self)),
                    Action::Tab => r == AppReturn::Continue && panel_cycled(*old(self), *final(self)),
                }
            }),
    {
        let found: Option<Action> = match self.actions.find(key) {
            Some(a) => Some(*a),
            None => None,
        };
        match found {
            Some(action) => match action {
                Action::Quit => AppReturn::Exit,
                Action::Up => self.go_up(1),
                Action::Down => self.go_down(1),
                Action::PageUp => self.go_up(20),
                Action::PageDown => self.go_down(20),
                Action::Backspace => self.clear_decisions(),
                Action::Tab => self.next_panel_selection(),
            },
            None => AppReturn::Continue,
        }
    }

    /// Merges freshly loaded prices of `player_slug`, then asks for its strategies.
    pub fn on_prices_loaded(&mut self, player_slug: &String, prices: Vec<Price>)
        ensures
            old(self).state.wf() ==> final(self).state.wf(),
            ({
                &&& final(self).actions == old(self).actions
                &&& old(self).state is Initialized ==> {
                    &&& final(self).state.same_selection(&old(self).state)
                    &&& final(self).state->decisions == old(self).state->decisions
                    &&& final(self).state.players_model() == crate::state::with_prices(
                        old(self).state.players_model(),
                        player_slug@,
                        prices@,
                    )
                    &&& dispatched(*old(self), *final(self), seq![IoEventView::RunStrategies(*player_slug)])
                }
                &&& !(old(self).state is Initialized) ==> *final(self) == *old(self)
            }),
    {
        self.state.merge_prices(player_slug.as_str(), prices);
        self.run_strategies(player_slug);
        assert(events_view(self.outbox@) =~= events_view(old(self).outbox@) + (if old(self).state is Initialized {
            seq![IoEventView::RunStrategies(*player_slug)]
        } else {
            Seq::<IoEventView>::empty()
        }));
    }

    /// Queues a strategy run for each slug of `player_slugs`, in order.
    fn run_strategies_for(&mut self, player_slugs: &Vec<String>)
        ensures
            !(old(self).state is Initialized) ==> *final(self) == *old(self),
            dispatched(
                *old(self),
                *final(self),
                if old(self).state is Initialized {
                    strategy_events(player_slugs@)
                } else {
                    Seq::empty()
                },
            ),
            final(self).actions == old(self).actions,
            final(self).state == old(self).state,
    {
        let mut i: usize = 0;
        while i < player_slugs.len()
            invariant
                i <= player_slugs@.len(),
                dispatched(
                    *old(self),
                    *self,
                    if old(self).state is Initialized {
                        strategy_events(player_slugs@.subrange(0, i as int))
                    } else {
                        Seq::empty()
                    },
                ),
                self.actions == old(self).actions,
                self.state == old(self).state,
                !(old(self).state is Initialized) ==> *self == *old(self),
            decreases player_slugs@.len() - i,
        {
            let ghost before = events_view(self.outbox@);
            self.run_strategies(&player_slugs[i]);
            proof {
                if old(self).state is Initialized {
                    assert(events_view(self.outbox@) =~= before + seq![IoEventView::RunStrategies(player_slugs@[i as int])]);
                }
                assert(strategy_events(player_slugs@.subrange(0, i + 1)) =~= strategy_events(
                    player_slugs@.subrange(0, i as int),
                ) + seq![IoEventView::RunStrategies(player_slugs@[i as int])]);
                if old(self).state is Initialized {
                    assert(events_view(self.outbox@) =~= events_view(old(self).outbox@)
                        + strategy_events(player_slugs@.subrange(0, i + 1)));
                    assert(strategy_events(player_slugs@.subrange(0, i + 1)).len() > 0);
                }
            }
            i = i + 1;
        }
        assert(player_slugs@.subrange(0, i as int) =~= player_slugs@);
    }

    /// Merges freshly loaded stats, then asks for the strategies of each of `player_slugs`.
    pub fn on_stats_loaded(&mut self, player_slugs: &Vec<String>, stats: Vec<Stats>)
        ensures
            old(self).state.wf() ==> final(self).state.wf(),
            final(self).actions == old(self).actions,
            old(self).state is Initialized ==> {
                &&& final(self).state.same_selection(&old(self).state)
                &&& final(self).state->decisions == old(self).state->decisions
                &&& final(self).state.players_model() == crate::state::with_all_stats(
                    old(self).state.players_model(),
                    crate::state::stats_list_view(stats@),
                )
                &&& dispatched(*old(self), *final(self), strategy_events(player_slugs@))
            },
            !(old(self).state is Initialized) ==> *final(self) == *old(self),
    {
        self.state.merge_stats(stats);
        self.run_strategies_for(player_slugs);
    }

    /// Merges freshly loaded injuries, then asks for the strategies of each of `player_slugs`.
    pub fn on_injuries_loaded(&mut self, player_slugs: &Vec<String>, injuries: Vec<Injury>)
        ensures
            old(self).state.wf() ==> final(self).state.wf(),
            final(self).actions == old(self).actions,
            old(self).state is Initialized ==> {
                &&& final(self).state.same_selection(&old(self).state)
                &&& final(self).state->decisions == old(self).state->decisions
                &&& final(self).state.players_model() == crate::state::with_all_injuries(
                    old(self).state.players_model(),
                    injuries@,
                )
                &&& dispatched(*old(self), *final(self), strategy_events(player_slugs@))
            },
            !(old(self).state is Initialized) ==> *final(self) == *old(self),
    {
        self.state.merge_injuries(injuries);
        self.run_strategies_for(player_slugs);
    }

    /// Replaces the decisions of `player_slug` by those of the last strategy run.
    pub fn on_decisions(&mut self, player_slug: &String, decisions: Vec<Decision>)
        ensures
            old(self).state.wf() ==> final(self).state.wf(),
            final(self).actions == old(self).actions,
            final(self).outbox == old(self).outbox,
            final(self).is_loading == old(self).is_loading,
            old(self).state is Initialized ==> {
                &&& final(self).state->players == old(self).state->players
                &&& final(self).state.decisions_model() == crate::state::others_decisions(
                    old(self).state.decisions_model(),
                    player_slug@,
                ) + decisions@
            },
            !(old(self).state is Initialized) ==> final(self).state == old(self).state,
    {
        self.state.merge_decisions(player_slug.as_str(), decisions);
    }

    /// One tick of the background refresh: the forced price refresh of the player under the
    /// scheduler's cursor, and a bulk stats and injury refresh once a batch is full.
    pub fn refresh_tick(&mut self, scheduler: &mut RefreshScheduler)
        ensures
            old(self).state.wf() ==> final(self).state.wf(),
            final(self).actions == old(self).actions,
            final(self).state == old(self).state,
            !(old(self).state is Initialized) ==> *final(self) == *old(self) && *final(scheduler)
                == *old(scheduler),
            old(self).state is Initialized ==> {
                let slugs = roster_slugs(old(self).state->players@);
                &&& final(scheduler)@ == after_tick(old(scheduler)@, slugs)
                &&& dispatched(
                    *old(self),
                    *final(self),
                    match tick_refresh(old(scheduler)@, slugs) {
                        Some(slug) => seq![IoEventView::LoadPlayerPrices(slug)],
                        None => Seq::empty(),
                    } + match tick_bulk(old(scheduler)@, slugs) {
                        Some(b) => seq![IoEventView::LoadPlayersStats(b), IoEventView::LoadPlayersInjury(b)],
                        None => Seq::empty(),
                    },
                )
            },
    {
        let actions = match &self.state {
            AppState::Initialized { players, .. } => scheduler.tick(players),
            _ => {
                return;
            },
        };
        match actions.refresh_prices {
            Some(slug) => self.dispatch(IoEvent::LoadPlayerPrices(slug)),
            None => {},
        }
        match actions.bulk_refresh {
            Some(batch) => {
                self.refresh_players_stats(&batch);
                self.refresh_players_injury(&batch);
            },
            None => {},
        }
        proof {
            assert(events_view(self.outbox@) =~= events_view(old(self).outbox@) + (match tick_refresh(
                old(scheduler)@,
                roster_slugs(old(self).state->players@),
            ) {
                Some(slug) => seq![IoEventView::LoadPlayerPrices(slug)],
                None => Seq::<IoEventView>::empty(),
            } + match tick_bulk(old(scheduler)@, roster_slugs(old(self).state->players@)) {
                Some(b) => seq![IoEventView::LoadPlayersStats(b), IoEventView::LoadPlayersInjury(b)],
                None => Seq::<IoEventView>::empty(),
            }));
        }
    }
}

} // verus!

use vstd::prelude::*;
use crate::model::{Decision, Injury, Player, PlayerView, Price, Stats, StatsView, players_view};

verus! {

/// The panels of the screen; each may own a selection.
#[derive(Debug, Clone, Copy, PartialEq, Eq, Structural)]
pub enum Panel {
    Players,
    Player,
    Decisions,
    Logs,
}

/// The shared state: not yet loaded, loaded, or failed.
pub enum AppState {
    Init,
    Initialized {
        selected_panel: Panel,
        /// Sorted by display name when installed; merges never reorder it.
        players: Vec<Player>,
        selected_player: usize,
        decisions: Vec<Decision>,
        selected_decision: usize,
    },
    Error(String),
}

/// A selection that stays a valid index into a sequence of `len` items, or 0 when it is empty.
pub open spec fn clamped(index: int, len: int) -> int {
    if len <= 0 {
        0
    } else if index < len {
        index
    } else {
        len - 1
    }
}

/// The player at `i` holds `slug`.
pub open spec fn slug_at(ps: Seq<PlayerView>, slug: Seq<char>, i: int) -> bool {
    0 <= i < ps.len() && ps[i].slug@ == slug
}

/// `i` is the first position of a player holding `slug`.
pub open spec fn is_first_slug(ps: Seq<PlayerView>, slug: Seq<char>, i: int) -> bool {
    slug_at(ps, slug, i) && forall|j: int| 0 <= j < i ==> !slug_at(ps, slug, j)
}

/// Position of the first player holding `slug`, or -1 when none does.
pub open spec fn first_slug_index(ps: Seq<PlayerView>, slug: Seq<char>) -> int {
    if exists|i: int| is_first_slug(ps, slug, i) {
        choose|i: int| is_first_slug(ps, slug, i)
    } else {
        -1
    }
}

/// `ps` with the prices of the first player holding `slug` replaced.
pub open spec fn with_prices(ps: Seq<PlayerView>, slug: Seq<char>, prices: Seq<Price>) -> Seq<PlayerView> {
    let i = first_slug_index(ps, slug);
    if i < 0 {
        ps
    } else {
        ps.update(i, PlayerView { prices: prices, ..ps[i] })
    }
}

/// `ps` with the stats of the first player holding the stats' slug replaced.
pub open spec fn with_stats(ps: Seq<PlayerView>, s: StatsView) -> Seq<PlayerView> {
    let i = first_slug_index(ps, s.player_slug@);
    if i < 0 {
        ps
    } else {
        ps.update(i, PlayerView { stats: Some(s), ..ps[i] })
    }
}

/// `with_stats` applied for each entry of `list`, in order.
pub open spec fn with_all_stats(ps: Seq<PlayerView>, list: Seq<StatsView>) -> Seq<PlayerView>
    decreases list.len(),
{
    if list.len() == 0 {
        ps
    } else {
        with_stats(with_all_stats(ps, list.drop_last()), list.last())
    }
}

/// `ps` with the injury of the first player holding the injury's slug replaced.
pub open spec fn with_injury(ps: Seq<PlayerView>, inj: Injury) -> Seq<PlayerView> {
    let i = first_slug_index(ps, inj.player_slug@);
    if i < 0 {
        ps
    } else {
        ps.update(i, PlayerView { injury: Some(inj), ..ps[i] })
    }
}

/// `with_injury` applied for each entry of `list`, in order.
pub open spec fn with_all_injuries(ps: Seq<PlayerView>, list: Seq<Injury>) -> Seq<PlayerView>
    decreases list.len(),
{
    if list.len() == 0 {
        ps
    } else {
        with_injury(with_all_injuries(ps, list.drop_last()), list.last())
    }
}

/// The decisions that concern another player than `slug`.
pub open spec fn others_decisions(ds: Seq<Decision>, slug: Seq<char>) -> Seq<Decision> {
    ds.filter(|d: Decision| d.player_slug@ != slug)
}

/// `new` is `old` with the selection owned by `panel` set to `selection`, clamped to the last
/// item; an empty collection, a panel without selection or an unloaded state is left as it is.
pub open spec fn selection_updated(old: AppState, new: AppState, selection: int, panel: Panel) -> bool {
    &&& !(old is Initialized) ==> new == old
    &&& old is Initialized ==> {
        &&& new is Initialized
        &&& new->players == old->players
        &&& new->decisions == old->decisions
        &&& new->selected_panel == old->selected_panel
        &&& new->selected_player as int == if panel == Panel::Players && old->players@.len() > 0 {
            clamped(selection, old->players@.len() as int)
        } else {
            old->selected_player as int
        }
        &&& new->selected_decision as int == if panel == Panel::Decisions && old->decisions@.len() > 0 {
            clamped(selection, old->decisions@.len() as int)
        } else {
            old->selected_decision as int
        }
    }
}

/// The views of a sequence of stats.
pub open spec fn stats_list_view(s: Seq<Stats>) -> Seq<StatsView> {
    s.map_values(|st: Stats| st@)
}

/// Position of the first player holding `slug`.
fn position_of(players: &Vec<Player>, slug: &String) -> (r: Option<usize>)
    ensures
        r matches Some(i) ==> is_first_slug(players_view(players@), slug@, i as int)
            && first_slug_index(players_view(players@), slug@) == i,
        r is None ==> first_slug_index(players_view(players@), slug@) == -1,
{
    let ghost ps = players_view(players@);
    let mut i: usize = 0;
    while i < players.len()
        invariant
            i <= players@.len(),
            ps == players_view(players@),
            forall|j: int| 0 <= j < i ==> !slug_at(ps, slug@, j),
        decreases players@.len() - i,
    {
        if players[i].slug == *slug {
            proof {
                assert(is_first_slug(ps, slug@, i as int));
                let k = choose|k: int| is_first_slug(ps, slug@, k);
                assert(k == i);
            }
            return Some(i);
        }
        i = i + 1;
    }
    proof {
        assert forall|k: int| !is_first_slug(ps, slug@, k) by {
            if 0 <= k < ps.len() {
                assert(!slug_at(ps, slug@, k));
            }
        }
    }
    None
}

/// Sets the stats of the first player holding `s`'s slug.
fn set_stats(players: &mut Vec<Player>, s: Stats)
    ensures
        players_view(final(players)@) == with_stats(players_view(old(players)@), s@),
        final(players)@.len() == old(players)@.len(),
{
    let ghost before = players_view(players@);
    let ghost sv = s@;
    match position_of(players, &s.player_slug) {
        Some(i) => {
            players[i].stats = Some(s);
            assert(players_view(players@) =~= with_stats(before, sv));
        },
        None => {},
    }
}

/// Sets the injury of the first player holding `inj`'s slug.
fn set_injury(players: &mut Vec<Player>, inj: Injury)
    ensures
        players_view(final(players)@) == with_injury(players_view(old(players)@), inj),
        final(players)@.len() == old(players)@.len(),
{
    let ghost before = players_view(players@);
    let ghost iv = inj;
    match position_of(players, &inj.player_slug) {
        Some(i) => {
            players[i].injury = Some(inj);
            assert(players_view(players@) =~= with_injury(before, iv));
        },
        None => {},
    }
}

/// Applies each entry of `stats` in order.
fn set_all_stats(players: &mut Vec<Player>, stats: &Vec<Stats>)
    ensures
        players_view(final(players)@) == with_all_stats(
            players_view(old(players)@),
            stats_list_view(stats@),
        ),
        final(players)@.len() == old(players)@.len(),
{
    let ghost before = players_view(players@);
    let ghost n = players@.len();
    let mut k: usize = 0;
    while k < stats.len()
        invariant
            k <= stats@.len(),
            players_view(players@) == with_all_stats(
                before,
                stats_list_view(stats@.subrange(0, k as int)),
            ),
            players@.len() == n,
        decreases stats@.len() - k,
    {
        let s = stats[k].clone();
        set_stats(players, s);
        proof {
            let next = stats_list_view(stats@.subrange(0, k + 1));
            assert(next.drop_last() =~= stats_list_view(stats@.subrange(0, k as int)));
            assert(next.last() == stats@[k as int]@);
        }
        k = k + 1;
    }
    assert(stats@.subrange(0, k as int) =~= stats@);
}

/// Applies each entry of `injuries` in order.
fn set_all_injuries(players: &mut Vec<Player>, injuries: &Vec<Injury>)
    ensures
        players_view(final(players)@) == with_all_injuries(players_view(old(players)@), injuries@),
        final(players)@.len() == old(players)@.len(),
{
    let ghost before = players_view(players@);
    let ghost n = players@.len();
    let mut k: usize = 0;
    while k < injuries.len()
        invariant
            k <= injuries@.len(),
            players_view(players@) == with_all_injuries(before, injuries@.subrange(0, k as int)),
            players@.len() == n,
        decreases injuries@.len() - k,
    {
        let inj = injuries[k].clone();
        set_injury(players, inj);
        proof {
            assert(injuries@.subrange(0, k + 1).drop_last() =~= injuries@.subrange(0, k as int));
        }
        k = k + 1;
    }
    assert(injuries@.subrange(0, k as int) =~= injuries@);
}

/// The decisions of `ds` that concern another player than `slug`, in order.
fn keep_others(ds: &Vec<Decision>, slug: &String) -> (r: Vec<Decision>)
    ensures
        r@ == others_decisions(ds@, slug@),
{
    let mut kept: Vec<Decision> = Vec::new();
    let mut i: usize = 0;
    while i < ds.len()
        invariant
            i <= ds@.len(),
            kept@ == others_decisions(ds@.subrange(0, i as int), slug@),
        decreases ds@.len() - i,
    {
        proof {
            reveal(Seq::filter);
            assert(ds@.subrange(0, i + 1).drop_last() =~= ds@.subrange(0, i as int));
        }
        if ds[i].player_slug != *slug {
            kept.push(ds[i].clone());
        }
        i = i + 1;
    }
    assert(ds@.subrange(0, i as int) =~= ds@);
    kept
}

impl AppState {
    /// The state holds valid selections: each is an index into its sequence, or 0 when it is empty.
    pub open spec fn wf(&self) -> bool {
        match self {
            AppState::Initialized { players, selected_player, decisions, selected_decision, .. } => {
                &&& *selected_player as int == clamped(*selected_player as int, players@.len() as int)
                &&& *selected_decision as int == clamped(*selected_decision as int, decisions@.len() as int)
            },
            _ => true,
        }
    }

    /// The players, or nothing before the roster is loaded.
    pub open spec fn players_model(&self) -> Seq<PlayerView> {
        match self {
            AppState::Initialized { players, .. } => players_view(players@),
            _ => Seq::empty(),
        }
    }

    /// The decisions, or nothing before the roster is loaded.
    pub open spec fn decisions_model(&self) -> Seq<Decision> {
        match self {
            AppState::Initialized { decisions, .. } => decisions@,
            _ => Seq::empty(),
        }
    }

    /// Both states are loaded and agree on the panel and on both selections.
    pub open spec fn same_selection(&self, other: &AppState) -> bool {
        &&& self is Initialized
        &&& other is Initialized
        &&& self->selected_panel == other->selected_panel
        &&& self->selected_player == other->selected_player
        &&& self->selected_decision == other->selected_decision
    }

    /// The loaded state with `players`, both selections at 0, no decision and the players panel.
    pub fn initialize(players: Vec<Player>) -> (r: AppState)
        ensures
            r is Initialized,
            r->players@ == players@,
            r->decisions@.len() == 0,
            r->selected_player == 0,
            r->selected_decision == 0,
            r->selected_panel == Panel::Players,
            r.wf(),
    {
        AppState::Initialized {
            selected_panel: Panel::Players,
            players,
            selected_player: 0,
            decisions: Vec::new(),
            selected_decision: 0,
        }
    }

    pub fn is_initialized(&self) -> (r: bool)
        ensures
            r == self is Initialized,
    {
        match self {
            AppState::Initialized { .. } => true,
            _ => false,
        }
    }

    /// The first player holding `player_slug`, if the roster is loaded and one does.
    pub fn get_player(&self, player_slug: &str) -> (r: Option<&Player>)
        ensures
            ({
                let i = first_slug_index(self.players_model(), player_slug@);
                &&& i < 0 ==> r is None
                &&& i >= 0 ==> (r matches Some(p) && p@ == self.players_model()[i])
            }),
    {
        let key = String::from_str(player_slug);
        match self {
            AppState::Initialized { players, .. } => {
                match position_of(players, &key) {
                    Some(i) => Some(&players[i]),
                    None => None,
                }
            },
            _ => None,
        }
    }

    /// Replaces the prices of the player holding `player_slug`; nothing changes when none does.
    pub fn merge_prices(&mut self, player_slug: &str, prices: Vec<Price>)
        ensures
            !(*old(self) is Initialized) ==> *final(self) == *old(self),
            *old(self) is Initialized ==> {
                &&& final(self).same_selection(old(self))
                &&& (*final(self))->decisions == (*old(self))->decisions
                &&& final(self).players_model() == with_prices(
                    old(self).players_model(),
                    player_slug@,
                    prices@,
                )
            },
            old(self).wf() ==> final(self).wf(),
    {
        let key = String::from_str(player_slug);
        match self {
            AppState::Initialized { players, .. } => {
                let ghost before = players_view(players@);
                match position_of(players, &key) {
                    Some(i) => {
                        players[i].prices = prices;
                        assert(players_view(players@) =~= with_prices(before, player_slug@, prices@));
                    },
                    None => {},
                }
            },
            _ => {},
        }
    }

    /// Replaces the stats of each player named by an entry of `stats`; other entries are dropped.
    pub fn merge_stats(&mut self, stats: Vec<Stats>)
        ensures
            !(*old(self) is Initialized) ==> *final(self) == *old(self),
            *old(self) is Initialized ==> {
                &&& final(self).same_selection(old(self))
                &&& (*final(self))->decisions == (*old(self))->decisions
                &&& final(self).players_model() == with_all_stats(
                    old(self).players_model(),
                    stats_list_view(stats@),
                )
            },
            old(self).wf() ==> final(self).wf(),
    {
        match self {
            AppState::Initialized { players, .. } => {
                set_all_stats(players, &stats);
            },
            _ => {},
        }
    }

    /// Replaces the injury of each player named by an entry of `injuries`; other entries are dropped.
    pub fn merge_injuries(&mut self, injuries: Vec<Injury>)
        ensures
            !(*old(self) is Initialized) ==> *final(self) == *old(self),
            *old(self) is Initialized ==> {
                &&& final(self).same_selection(old(self))
                &&& (*final(self))->decisions == (*old(self))->decisions
                &&& final(self).players_model() == with_all_injuries(
                    old(self).players_model(),
                    injuries@,
                )
            },
            old(self).wf() ==> final(self).wf(),
    {
        match self {
            AppState::Initialized { players, .. } => {
                set_all_injuries(players, &injuries);
            },
            _ => {},
        }
    }

    /// Drops every decision about `player_slug`, then appends `player_decisions`;
    /// the selected decision is clamped to the new list.
    pub fn merge_decisions(&mut self, player_slug: &str, player_decisions: Vec<Decision>)
        ensures
            !(*old(self) is Initialized) ==> *final(self) == *old(self),
            *old(self) is Initialized ==> {
                &&& *final(self) is Initialized
                &&& (*final(self))->players == (*old(self))->players
                &&& (*final(self))->selected_panel == (*old(self))->selected_panel
                &&& (*final(self))->selected_player == (*old(self))->selected_player
                &&& final(self).decisions_model() == others_decisions(
                    old(self).decisions_model(),
                    player_slug@,
                ) + player_decisions@
                &&& (*final(self))->selected_decision as int == clamped(
                    (*old(self))->selected_decision as int,
                    final(self).decisions_model().len() as int,
                )
            },
            old(self).wf() ==> final(self).wf(),
    {
        let key = String::from_str(player_slug);
        match self {
            AppState::Initialized { decisions, selected_decision, .. } => {
                let mut kept = keep_others(decisions, &key);
                let mut added = player_decisions;
                kept.append(&mut added);
                *decisions = kept;
                if decisions.len() == 0 {
                    *selected_decision = 0;
                } else if *selected_decision >= decisions.len() {
                    *selected_decision = decisions.len() - 1;
                }
            },
            _ => {},
        }
    }

    /// Removes every decision; the selected decision goes back to 0.
    pub fn clear_decisions(&mut self)
        ensures
            !(*old(self) is Initialized) ==> *final(self) == *old(self),
            *old(self) is Initialized ==> {
                &&& *final(self) is Initialized
                &&& (*final(self))->players == (*old(self))->players
                &&& (*final(self))->selected_panel == (*old(self))->selected_panel
                &&& (*final(self))->selected_player == (*old(self))->selected_player
                &&& final(self).decisions_model().len() == 0
                &&& (*final(self))->selected_decision == 0
            },
            old(self).wf() ==> final(self).wf(),
    {
        match self {
            AppState::Initialized { decisions, selected_decision, .. } => {
                decisions.clear();
                *selected_decision = 0;
            },
            _ => {},
        }
    }

    /// Sets the selection owned by `panel` to `selection`, clamped to the last item;
    /// an empty collection, a panel without selection or an unloaded state is left as it is.
    pub fn update_selection(&mut self, selection: usize, panel: Panel)
        ensures
            selection_updated(*old(self), *final(self), selection as int, panel),
            old(self).wf() ==> final(self).wf(),
    {
        match self {
            AppState::Initialized { players, decisions, selected_player, selected_decision, .. } => {
                match panel {
                    Panel::Players => {
                        if players.len() > 0 {
                            *selected_player = if selection < players.len() {
                                selection
                            } else {
                                players.len() - 1
                            };
                        }
                    },
                    Panel::Decisions => {
                        if decisions.len() > 0 {
                            *selected_decision = if selection < decisions.len() {
                                selection
                            } else {
                                decisions.len() - 1
                            };
                        }
                    },
                    _ => {},
                }
            },
            _ => {},
        }
    }
}

} // verus!

verus! {

/// No player of `ps` holds `slug`.
pub open spec fn unknown_slug(ps: Seq<PlayerView>, slug: Seq<char>) -> bool {
    forall|i: int| 0 <= i < ps.len() ==> ps[i].slug@ != slug
}

proof fn lemma_unknown_slug_index(ps: Seq<PlayerView>, slug: Seq<char>)
    requires
        unknown_slug(ps, slug),
    ensures
        first_slug_index(ps, slug) == -1,
{
    assert(!exists|i: int| is_first_slug(ps, slug, i));
}

/// Merging prices, stats or an injury for a slug that no player holds leaves every player as it was.
pub proof fn lemma_merge_unknown_slug_keeps_roster(
    ps: Seq<PlayerView>,
    slug: Seq<char>,
    prices: Seq<Price>,
    stats: StatsView,
    injury: Injury,
)
    requires
        unknown_slug(ps, slug),
        stats.player_slug@ == slug,
        injury.player_slug@ == slug,
    ensures
        with_prices(ps, slug, prices) == ps,
        with_stats(ps, stats) == ps,
        with_injury(ps, injury) == ps,
{
    lemma_unknown_slug_index(ps, slug);
}

/// Merging lists of stats and injuries whose every entry names an unknown slug leaves every
/// player as it was.
pub proof fn lemma_merge_unknown_slugs_keeps_roster(
    ps: Seq<PlayerView>,
    stats: Seq<StatsView>,
    injuries: Seq<Injury>,
)
    requires
        forall|k: int| 0 <= k < stats.len() ==> unknown_slug(ps, #[trigger] stats[k].player_slug@),
        forall|k: int| 0 <= k < injuries.len() ==> unknown_slug(ps, #[trigger] injuries[k].player_slug@),
    ensures
        with_all_stats(ps, stats) == ps,
        with_all_injuries(ps, injuries) == ps,
    decreases stats.len() + injuries.len(),
{
    if stats.len() > 0 {
        lemma_merge_unknown_slugs_keeps_roster(ps, stats.drop_last(), Seq::empty());
        lemma_unknown_slug_index(ps, stats.last().player_slug@);
    }
    if injuries.len() > 0 {
        lemma_merge_unknown_slugs_keeps_roster(ps, Seq::empty(), injuries.drop_last());
        lemma_unknown_slug_index(ps, injuries.last().player_slug@);
    }
}

proof fn lemma_others_count(ds: Seq<Decision>, slug: Seq<char>, d: Decision)
    ensures
        others_decisions(ds, slug).to_multiset().count(d) == if d.player_slug@ != slug {
            ds.to_multiset().count(d)
        } else {
            0
        },
    decreases ds.len(),
{
    broadcast use vstd::seq_lib::group_to_multiset_ensures;
    reveal(Seq::filter);
    if ds.len() > 0 {
        lemma_others_count(ds.drop_last(), slug, d);
        assert(ds.drop_last().push(ds.last()) =~= ds);
    }
}

/// After replacing the decisions of `slug` by `new`, each decision occurs as often as it did
/// before when it concerns another player, plus as often as it occurs in `new`.
pub proof fn lemma_merge_decisions_counts(before: Seq<Decision>, slug: Seq<char>, new: Seq<Decision>, d: Decision)
    ensures
        (others_decisions(before, slug) + new).to_multiset().count(d) == (if d.player_slug@ != slug {
            before.to_multiset().count(d)
        } else {
            0
        }) + new.to_multiset().count(d),
{
    vstd::seq_lib::lemma_multiset_commutative(others_decisions(before, slug), new);
    lemma_others_count(before, slug, d);
}

} // verus!

use vstd::prelude::*;

verus! {

/// One market sale of a player card, amounts kept as decimal text.
#[derive(Debug, PartialEq, Eq, Hash)]
pub struct Price {
    pub player_slug: String,
    pub date: String,
    pub eur: String,
    pub usd: String,
}

/// One game of a player, most recent first inside `Stats::games`.
#[derive(Debug, PartialEq, Eq, Hash)]
pub struct Game {
    pub date: String,
    pub did_play: bool,
    pub minutes_played: u64,
    pub score: u64,
}

/// Performance statistics of a player.
#[derive(Debug, PartialEq, Eq, Hash)]
pub struct Stats {
    pub player_slug: String,
    pub score: i64,
    pub games: Vec<Game>,
}

/// Injury status of a player.
#[derive(Debug, PartialEq, Eq, Hash)]
pub struct Injury {
    pub player_slug: String,
    pub date: String,
    pub update_date: Option<String>,
    pub description: String,
    pub comment: String,
}

/// A tracked entity; `slug` is its identity.
#[derive(Debug, PartialEq, Eq, Hash)]
pub struct Player {
    pub slug: String,
    pub display_name: String,
    pub birth_date: String,
    pub team: Option<String>,
    /// Newest first.
    pub prices: Vec<Price>,
    pub stats: Option<Stats>,
    pub injury: Option<Injury>,
    pub positions: Vec<String>,
    pub country: String,
    pub number: i64,
}

/// A recommendation produced by one strategy for one player.
#[derive(Debug, PartialEq, Eq, Hash)]
pub struct Decision {
    pub action: String,
    pub player_slug: String,
    pub player_name: String,
    pub strategy: String,
    pub comment: String,
}

/// What a strategy script hands back: an action and a comment.
#[derive(Debug, PartialEq, Eq, Hash)]
pub struct ScriptDecision {
    pub action: String,
    pub comment: String,
}

/// The currency in which a price is read.
#[derive(Debug, Clone, Copy, PartialEq, Eq, Hash)]
pub enum Currency {
    Euro,
    Usd,
}

impl Clone for Price {
    fn clone(&self) -> (r: Self)
        ensures
            r == *self,
    {
        Price {
            player_slug: self.player_slug.clone(),
            date: self.date.clone(),
            eur: self.eur.clone(),
            usd: self.usd.clone(),
        }
    }
}

impl Clone for Game {
    fn clone(&self) -> (r: Self)
        ensures
            r == *self,
    {
        Game {
            date: self.date.clone(),
            did_play: self.did_play,
            minutes_played: self.minutes_played,
            score: self.score,
        }
    }
}

/// `Stats` with its games as a sequence.
pub struct StatsView {
    pub player_slug: String,
    pub score: i64,
    pub games: Seq<Game>,
}

impl View for Stats {
    type V = StatsView;

    open spec fn view(&self) -> StatsView {
        StatsView { player_slug: self.player_slug, score: self.score, games: self.games@ }
    }
}

/// The view of an optional `Stats`.
pub open spec fn stats_view(s: Option<Stats>) -> Option<StatsView> {
    match s {
        Some(st) => Some(st@),
        None => None,
    }
}

/// `Player` with its collections as sequences.
pub struct PlayerView {
    pub slug: String,
    pub display_name: String,
    pub birth_date: String,
    pub team: Option<String>,
    pub prices: Seq<Price>,
    pub stats: Option<StatsView>,
    pub injury: Option<Injury>,
    pub positions: Seq<String>,
    pub country: String,
    pub number: i64,
}

impl View for Player {
    type V = PlayerView;

    open spec fn view(&self) -> PlayerView {
        PlayerView {
            slug: self.slug,
            display_name: self.display_name,
            birth_date: self.birth_date,
            team: self.team,
            prices: self.prices@,
            stats: stats_view(self.stats),
            injury: self.injury,
            positions: self.positions@,
            country: self.country,
            number: self.number,
        }
    }
}

/// The views of a sequence of players.
pub open spec fn players_view(s: Seq<Player>) -> Seq<PlayerView> {
    s.map_values(|p: Player| p@)
}

impl Clone for Stats {
    fn clone(&self) -> (r: Self)
        ensures
            r@ == self@,
    {
        let games = self.games.clone();
        assert(games@ =~= self.games@);
        Stats { player_slug: self.player_slug.clone(), score: self.score, games }
    }
}

impl Clone for Injury {
    fn clone(&self) -> (r: Self)
        ensures
            r == *self,
    {
        Injury {
            player_slug: self.player_slug.clone(),
            date: self.date.clone(),
            update_date: self.update_date.clone(),
            description: self.description.clone(),
            comment: self.comment.clone(),
        }
    }
}

impl Clone for Player {
    fn clone(&self) -> (r: Self)
        ensures
            r@ == self@,
    {
        let prices = self.prices.clone();
        assert(prices@ =~= self.prices@);
        let positions = self.positions.clone();
        assert(positions@ =~= self.positions@);
        Player {
            slug: self.slug.clone(),
            display_name: self.display_name.clone(),
            birth_date: self.birth_date.clone(),
            team: self.team.clone(),
            prices,
            stats: match &self.stats {
                Some(st) => Some(st.clone()),
                None => None,
            },
            injury: self.injury.clone(),
            positions,
            country: self.country.clone(),
            number: self.number,
        }
    }
}

impl Clone for Decision {
    fn clone(&self) -> (r: Self)
        ensures
            r == *self,
    {
        Decision {
            action: self.action.clone(),
            player_slug: self.player_slug.clone(),
            player_name: self.player_name.clone(),
            strategy: self.strategy.clone(),
            comment: self.comment.clone(),
        }
    }
}

impl Clone for ScriptDecision {
    fn clone(&self) -> (r: Self)
        ensures
            r == *self,
    {
        ScriptDecision { action: self.action.clone(), comment: self.comment.clone() }
    }
}

/// Scores of the games, in the order in which they are stored.
pub open spec fn game_scores(games: Seq<Game>) -> Seq<u64> {
    games.map_values(|g: Game| g.score)
}

/// Number of games in which the player took part.
pub open spec fn played_count(games: Seq<Game>) -> nat
    decreases games.len(),
{
    if games.len() == 0 {
        0
    } else {
        played_count(games.drop_last()) + if games.last().did_play {
            1nat
        } else {
            0nat
        }
    }
}

impl Stats {
    /// The score of each game, most recent first; `None` when no game is known.
    pub fn last_game_scores(&self) -> (r: Option<Vec<u64>>)
        ensures
            self.games@.len() == 0 <==> r is None,
            r matches Some(v) ==> v@ == game_scores(self.games@),
    {
        if self.games.len() == 0 {
            return None;
        }
        let mut scores: Vec<u64> = Vec::new();
        let mut i: usize = 0;
        while i < self.games.len()
            invariant
                i <= self.games@.len(),
                scores@ == game_scores(self.games@.subrange(0, i as int)),
            decreases self.games@.len() - i,
        {
            proof {
                assert(self.games@.subrange(0, i + 1).drop_last() =~= self.games@.subrange(0, i as int));
            }
            scores.push(self.games[i].score);
            i = i + 1;
            assert(scores@ =~= game_scores(self.games@.subrange(0, i as int)));
        }
        assert(self.games@.subrange(0, i as int) =~= self.games@);
        Some(scores)
    }

    /// How many of the known games the player played; `None` when no game is known.
    pub fn played_games_count(&self) -> (r: Option<u64>)
        ensures
            self.games@.len() == 0 <==> r is None,
            r matches Some(n) ==> n == played_count(self.games@),
    {
        if self.games.len() == 0 {
            return None;
        }
        let mut count: u64 = 0;
        let mut i: usize = 0;
        while i < self.games.len()
            invariant
                i <= self.games@.len(),
                count == played_count(self.games@.subrange(0, i as int)),
                count <= i,
                i <= usize::MAX,
            decreases self.games@.len() - i,
        {
            assert(self.games@.subrange(0, i + 1).drop_last() =~= self.games@.subrange(0, i as int));
            if self.games[i].did_play {
                count = count + 1;
            }
            i = i + 1;
        }
        assert(self.games@.subrange(0, i as int) =~= self.games@);
        Some(count)
    }
}

impl ScriptDecision {
    /// The full decision for `player`, as produced by the strategy named `strategy_name`.
    pub fn to_decision(&self, player: &Player, strategy_name: &str) -> (r: Decision)
        ensures
            r.action == self.action,
            r.comment == self.comment,
            r.player_slug == player.slug,
            r.player_name == player.display_name,
            r.strategy@ == strategy_name@,
    {
        Decision {
            action: self.action.clone(),
            player_slug: player.slug.clone(),
            player_name: player.display_name.clone(),
            strategy: strategy_name.to_string(),
            comment: self.comment.clone(),
        }
    }
}

} // verus!

verus! {

/// Every player of `ps` has stats.
pub open spec fn all_stats_loaded(ps: Seq<Player>) -> bool {
    forall|k: int| 0 <= k < ps.len() ==> (#[trigger] ps[k]).stats is Some
}

/// The aggregate score of `p`, 0 without stats.
pub open spec fn score_of(p: Player) -> int {
    match p.stats {
        Some(s) => s.score as int,
        None => 0,
    }
}

/// The player at `m` comes before the one at `k` when sorted by score, highest first, equal
/// scores keeping their order.
pub open spec fn ranks_before(ps: Seq<Player>, m: int, k: int) -> bool {
    score_of(ps[m]) > score_of(ps[k]) || (m < k && score_of(ps[m]) == score_of(ps[k]))
}

/// How many of the first `i` players of `ps` come before the one at `k`.
pub open spec fn count_before(ps: Seq<Player>, k: int, i: int) -> nat
    decreases i,
{
    if i <= 0 {
        0
    } else {
        count_before(ps, k, i - 1) + if ranks_before(ps, i - 1, k) {
            1nat
        } else {
            0nat
        }
    }
}

/// How many players of `ps` come before the one at `k`.
pub open spec fn place_of(ps: Seq<Player>, k: int) -> nat {
    count_before(ps, k, ps.len() as int)
}

/// How many players of `ps` come before the one at `k`.
fn place_in(ps: &Vec<Player>, k: usize) -> (r: usize)
    requires
        k < ps@.len(),
        all_stats_loaded(ps@),
    ensures
        r == place_of(ps@, k as int),
        r < ps@.len(),
{
    let score = match &ps[k].stats {
        Some(s) => s.score,
        None => 0,
    };
    let mut n: usize = 0;
    let mut i: usize = 0;
    while i < ps.len()
        invariant
            k < ps@.len(),
            i <= ps@.len(),
            all_stats_loaded(ps@),
            score as int == score_of(ps@[k as int]),
            n == count_before(ps@, k as int, i as int),
            n <= i,
            i > k ==> n < i,
        decreases ps@.len() - i,
    {
        let s = match &ps[i].stats {
            Some(st) => st.score,
            None => 0,
        };
        if s > score || (i < k && s == score) {
            n = n + 1;
        }
        i = i + 1;
    }
    n
}

impl Player {
    /// The rank of the player among `players` by score, highest first and from 1, ties kept
    /// in roster order; `None` unless this player and every player of `players` have stats,
    /// or when no player of `players` holds this player's slug.
    pub fn rank(&self, players: &Vec<Player>) -> (r: Option<usize>)
        ensures
            (self.stats is Some && all_stats_loaded(players@) && exists|k: int|
                0 <= k < players@.len() && players@[k].slug@ == self.slug@) <==> r is Some,
            r matches Some(n) ==> exists|k: int|
                0 <= k < players@.len() && players@[k].slug@ == self.slug@ && n == place_of(players@, k) + 1
                    && forall|m: int|
                    0 <= m < players@.len() && players@[m].slug@ == self.slug@ ==> place_of(players@, k)
                        <= place_of(players@, m),
    {
        if self.stats.is_none() {
            return None;
        }
        let mut i: usize = 0;
        while i < players.len()
            invariant
                i <= players@.len(),
                forall|k: int| 0 <= k < i ==> (#[trigger] players@[k]).stats is Some,
            decreases players@.len() - i,
        {
            if players[i].stats.is_none() {
                return None;
            }
            i = i + 1;
        }
        let mut best: Option<usize> = None;
        let mut best_at: usize = 0;
        let mut j: usize = 0;
        while j < players.len()
            invariant
                j <= players@.len(),
                all_stats_loaded(players@),
                best is None <==> forall|k: int| 0 <= k < j ==> players@[k].slug@ != self.slug@,
                best matches Some(b) ==> {
                    &&& best_at < j
                    &&& b < players@.len()
                    &&& players@[best_at as int].slug@ == self.slug@
                    &&& b == place_of(players@, best_at as int)
                    &&& forall|m: int|
                        0 <= m < j && players@[m].slug@ == self.slug@ ==> b <= place_of(players@, m)
                },
            decreases players@.len() - j,
        {
            if players[j].slug == self.slug {
                let place = place_in(players, j);
                match best {
                    Some(b) => {
                        if place < b {
                            best = Some(place);
                            best_at = j;
                        }
                    },
                    None => {
                        best = Some(place);
                        best_at = j;
                    },
                }
            }
            j = j + 1;
        }
        match best {
            Some(b) => Some(b + 1),
            None => None,
        }
    }
}

} // verus!

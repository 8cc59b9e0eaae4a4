use vstd::prelude::*;
use crate::model::Player;

verus! {

/// Number of single price refreshes after which stats and injuries are refreshed in bulk.
pub const BULK_REFRESH_BATCH: usize = 5;

/// The background refresh cursor: the next player to refresh, and the slugs refreshed since
/// the last bulk refresh.
pub struct RefreshScheduler {
    pub index: usize,
    pub pending: Vec<String>,
}

/// What one tick asks for: a forced price refresh of one player, and at times a bulk stats and
/// injury refresh of a batch of players.
pub struct TickActions {
    pub refresh_prices: Option<String>,
    pub bulk_refresh: Option<Vec<String>>,
}

/// The scheduler over plain values.
pub struct SchedulerModel {
    pub index: nat,
    pub pending: Seq<String>,
}

impl View for RefreshScheduler {
    type V = SchedulerModel;

    open spec fn view(&self) -> SchedulerModel {
        SchedulerModel { index: self.index as nat, pending: self.pending@ }
    }
}

/// The slugs of a roster, in order.
pub open spec fn roster_slugs(players: Seq<Player>) -> Seq<String> {
    players.map_values(|p: Player| p.slug)
}

/// A scheduler that has not ticked yet.
pub open spec fn initial_scheduler() -> SchedulerModel {
    SchedulerModel { index: 0, pending: Seq::empty() }
}

/// The slug a tick refreshes on a roster with `slugs`, if the roster is not empty.
pub open spec fn tick_refresh(m: SchedulerModel, slugs: Seq<String>) -> Option<String> {
    if slugs.len() == 0 {
        None
    } else {
        Some(slugs[(m.index % slugs.len()) as int])
    }
}

/// The batch a tick refreshes in bulk, if the batch is full after this tick.
pub open spec fn tick_bulk(m: SchedulerModel, slugs: Seq<String>) -> Option<Seq<String>> {
    if slugs.len() == 0 {
        None
    } else {
        let pending = m.pending.push(slugs[(m.index % slugs.len()) as int]);
        if pending.len() >= BULK_REFRESH_BATCH {
            Some(pending)
        } else {
            None
        }
    }
}

/// The scheduler after one tick on a roster with `slugs`.
pub open spec fn after_tick(m: SchedulerModel, slugs: Seq<String>) -> SchedulerModel {
    if slugs.len() == 0 {
        m
    } else {
        let i = m.index % slugs.len();
        let pending = m.pending.push(slugs[i as int]);
        SchedulerModel {
            index: (i + 1) % slugs.len(),
            pending: if pending.len() >= BULK_REFRESH_BATCH {
                Seq::empty()
            } else {
                pending
            },
        }
    }
}

/// The scheduler after `k` ticks from the start on an unchanging roster with `slugs`.
pub open spec fn after_ticks(slugs: Seq<String>, k: nat) -> SchedulerModel
    decreases k,
{
    if k == 0 {
        initial_scheduler()
    } else {
        after_tick(after_ticks(slugs, (k - 1) as nat), slugs)
    }
}

proof fn lemma_ticks_state(slugs: Seq<String>, k: nat)
    requires
        slugs.len() > 0,
    ensures
        after_ticks(slugs, k).index == k % slugs.len(),
        after_ticks(slugs, k).pending.len() == k % (BULK_REFRESH_BATCH as nat),
    decreases k,
{
    let n = slugs.len() as int;
    let b = BULK_REFRESH_BATCH as int;
    if k > 0 {
        lemma_ticks_state(slugs, (k - 1) as nat);
        let km = (k - 1) as int;
        vstd::arithmetic::div_mod::lemma_mod_twice(km, n);
        vstd::arithmetic::div_mod::lemma_add_mod_noop_right(1, km, n);
        assert(1 + km == k);
        vstd::arithmetic::div_mod::lemma_add_mod_noop(km, 1, b);
        vstd::arithmetic::div_mod::lemma_small_mod(1, b as nat);
        let r = km % b;
        assert(0 <= r < b) by {
            vstd::arithmetic::div_mod::lemma_mod_bound(km, b);
        }
        if r + 1 < b {
            vstd::arithmetic::div_mod::lemma_small_mod((r + 1) as nat, b as nat);
        } else {
            vstd::arithmetic::div_mod::lemma_mod_self_0(b);
        }
    } else {
        vstd::arithmetic::div_mod::lemma_small_mod(0, slugs.len());
        vstd::arithmetic::div_mod::lemma_small_mod(0, BULK_REFRESH_BATCH as nat);
    }
}

/// On an unchanging roster of `n` players, the tick numbered `t` from 0 refreshes the prices
/// of the player at `t % n`, so the first `n` ticks refresh each player once; and it asks for
/// a bulk refresh exactly when `t + 1` is a multiple of the batch size.
pub proof fn lemma_scheduler_rotation(slugs: Seq<String>, t: nat)
    requires
        slugs.len() > 0,
    ensures
        tick_refresh(after_ticks(slugs, t), slugs) == Some(slugs[(t % slugs.len()) as int]),
        t < slugs.len() ==> tick_refresh(after_ticks(slugs, t), slugs) == Some(slugs[t as int]),
        tick_bulk(after_ticks(slugs, t), slugs) is Some <==> (t + 1) % (BULK_REFRESH_BATCH as nat) == 0,
{
    lemma_ticks_state(slugs, t);
    let n = slugs.len() as int;
    let b = BULK_REFRESH_BATCH as int;
    vstd::arithmetic::div_mod::lemma_mod_twice(t as int, n);
    if t < slugs.len() {
        vstd::arithmetic::div_mod::lemma_small_mod(t, slugs.len());
    }
    vstd::arithmetic::div_mod::lemma_add_mod_noop(t as int, 1, b);
    vstd::arithmetic::div_mod::lemma_small_mod(1, b as nat);
    let r = t as int % b;
    assert(0 <= r < b) by {
        vstd::arithmetic::div_mod::lemma_mod_bound(t as int, b);
    }
    if r + 1 < b {
        vstd::arithmetic::div_mod::lemma_small_mod((r + 1) as nat, b as nat);
    } else {
        vstd::arithmetic::div_mod::lemma_mod_self_0(b);
    }
}

impl RefreshScheduler {
    /// A scheduler that starts with the first player and an empty batch.
    pub fn new() -> (r: RefreshScheduler)
        ensures
            r@ == initial_scheduler(),
    {
        RefreshScheduler { index: 0, pending: Vec::new() }
    }

    /// One tick on the roster `players`: refresh the prices of the player under the cursor,
    /// add its slug to the batch, move the cursor on, and hand the batch out once it is full.
    /// An empty roster asks for nothing.
    pub fn tick(&mut self, players: &Vec<Player>) -> (r: TickActions)
        ensures
            final(self)@ == after_tick(old(self)@, roster_slugs(players@)),
            r.refresh_prices == tick_refresh(old(self)@, roster_slugs(players@)),
            match tick_bulk(old(self)@, roster_slugs(players@)) {
                Some(b) => r.bulk_refresh matches Some(v) && v@ == b,
                None => r.bulk_refresh is None,
            },
    {
        let n = players.len();
        if n == 0 {
            return TickActions { refresh_prices: None, bulk_refresh: None };
        }
        let i = self.index % n;
        let slug = players[i].slug.clone();
        self.pending.push(players[i].slug.clone());
        self.index = (i + 1) % n;
        if self.pending.len() >= BULK_REFRESH_BATCH {
            let mut batch: Vec<String> = Vec::new();
            std::mem::swap(&mut batch, &mut self.pending);
            TickActions { refresh_prices: Some(slug), bulk_refresh: Some(batch) }
        } else {
            TickActions { refresh_prices: Some(slug), bulk_refresh: None }
        }
    }
}

} // verus!

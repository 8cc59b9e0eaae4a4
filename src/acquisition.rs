use vstd::prelude::*;
use crate::model::{Player, PlayerView, players_view};
use crate::text::{chars_less, chars_lt, chars_of, lemma_chars_lt_irreflexive, lemma_chars_lt_transitive, lower_of, lowercase};

verus! {

/// Number of tokens asked for in one page.
pub const PAGE_SIZE: i64 = 50;

/// Consecutive pages without a new player after which loading stops.
pub const MAX_STUCK_PAGES: u64 = 10;

/// Attempts of the roster load, the first one included, after which a failing load is given up.
pub const MAX_LOAD_ATTEMPTS: u64 = 5;

/// Whether to clear the cached roster and load again after `failed_attempts` failed loads.
pub fn retry_load(failed_attempts: u64) -> (r: bool)
    ensures
        r == (failed_attempts < MAX_LOAD_ATTEMPTS),
{
    failed_attempts < MAX_LOAD_ATTEMPTS
}

/// The key by which the roster is sorted: the display name in lower case.
pub open spec fn name_key(p: PlayerView) -> Seq<char> {
    lower_of(p.display_name@)
}

/// Some player of `ps` holds `slug`.
pub open spec fn holds_slug(ps: Seq<PlayerView>, slug: Seq<char>) -> bool {
    exists|i: int| 0 <= i < ps.len() && ps[i].slug@ == slug
}

/// `acc` with `p` appended, unless a player of `acc` already holds its slug.
pub open spec fn add_unique(acc: Seq<PlayerView>, p: PlayerView) -> Seq<PlayerView> {
    if holds_slug(acc, p.slug@) {
        acc
    } else {
        acc.push(p)
    }
}

/// `acc` with the players of `page` added in order, each slug kept once.
pub open spec fn add_page(acc: Seq<PlayerView>, page: Seq<PlayerView>) -> Seq<PlayerView>
    decreases page.len(),
{
    if page.len() == 0 {
        acc
    } else {
        add_unique(add_page(acc, page.drop_last()), page.last())
    }
}

/// No two players of `ps` hold the same slug.
pub open spec fn unique_slugs(ps: Seq<PlayerView>) -> bool {
    forall|i: int, j: int| 0 <= i < j < ps.len() ==> ps[i].slug@ != ps[j].slug@
}

/// `s` with `p` inserted after every player whose key does not exceed `p`'s.
pub open spec fn insert_by_name(s: Seq<PlayerView>, p: PlayerView) -> Seq<PlayerView>
    decreases s.len(),
{
    if s.len() == 0 {
        seq![p]
    } else if chars_lt(name_key(p), name_key(s[0])) {
        seq![p] + s
    } else {
        seq![s[0]] + insert_by_name(s.drop_first(), p)
    }
}

/// `s` sorted by name key; players with equal keys keep their order.
pub open spec fn sort_by_name(s: Seq<PlayerView>) -> Seq<PlayerView>
    decreases s.len(),
{
    if s.len() == 0 {
        s
    } else {
        insert_by_name(sort_by_name(s.drop_last()), s.last())
    }
}

/// No player comes after one with a greater name key.
pub open spec fn sorted_by_name(s: Seq<PlayerView>) -> bool {
    forall|i: int, j: int| 0 <= i < j < s.len() ==> !chars_lt(name_key(s[j]), name_key(s[i]))
}

proof fn lemma_insert_at(s: Seq<PlayerView>, p: PlayerView, j: int)
    requires
        0 <= j <= s.len(),
        forall|k: int| 0 <= k < j ==> !chars_lt(name_key(p), #[trigger] name_key(s[k])),
        j == s.len() || chars_lt(name_key(p), name_key(s[j])),
    ensures
        insert_by_name(s, p) == s.insert(j, p),
    decreases s.len(),
{
    if s.len() == 0 {
        assert(s.insert(j, p) =~= seq![p]);
    } else if j == 0 {
        assert(s.insert(0, p) =~= seq![p] + s);
    } else {
        assert(!chars_lt(name_key(p), name_key(s[0])));
        let t = s.drop_first();
        assert forall|k: int| 0 <= k < j - 1 implies !chars_lt(name_key(p), #[trigger] name_key(t[k])) by {
            assert(t[k] == s[k + 1]);
        }
        lemma_insert_at(t, p, j - 1);
        assert(seq![s[0]] + t.insert(j - 1, p) =~= s.insert(j, p));
    }
}

proof fn lemma_insert_sorted(s: Seq<PlayerView>, p: PlayerView)
    requires
        sorted_by_name(s),
    ensures
        sorted_by_name(insert_by_name(s, p)),
        insert_by_name(s, p).to_multiset() == s.to_multiset().insert(p),
        insert_by_name(s, p).len() == s.len() + 1,
    decreases s.len(),
{
    broadcast use vstd::seq_lib::group_to_multiset_ensures;
    let r = insert_by_name(s, p);
    if s.len() == 0 {
        assert(r =~= Seq::<PlayerView>::empty().push(p));
    } else if chars_lt(name_key(p), name_key(s[0])) {
        assert forall|i: int, j: int| 0 <= i < j < r.len() implies !chars_lt(
            name_key(r[j]),
            name_key(r[i]),
        ) by {
            if i == 0 {
                if chars_lt(name_key(r[j]), name_key(p)) {
                    if j - 1 > 0 {
                        assert(!chars_lt(name_key(s[j - 1]), name_key(s[0])));
                    }
                    lemma_chars_lt_transitive(name_key(s[j - 1]), name_key(p), name_key(s[0]));
                    lemma_chars_lt_irreflexive(name_key(s[0]));
                }
            } else {
                assert(r[i] == s[i - 1] && r[j] == s[j - 1]);
            }
        }
        vstd::seq_lib::lemma_multiset_commutative(seq![p], s);
        assert(seq![p] =~= Seq::<PlayerView>::empty().push(p));
    } else {
        let t = s.drop_first();
        assert(sorted_by_name(t)) by {
            assert forall|i: int, j: int| 0 <= i < j < t.len() implies !chars_lt(
                name_key(t[j]),
                name_key(t[i]),
            ) by {
                assert(t[i] == s[i + 1] && t[j] == s[j + 1]);
            }
        }
        lemma_insert_sorted(t, p);
        let rt = insert_by_name(t, p);
        assert forall|i: int, j: int| 0 <= i < j < r.len() implies !chars_lt(
            name_key(r[j]),
            name_key(r[i]),
        ) by {
            if i == 0 {
                assert(r[j] == rt[j - 1]);
                assert(rt.to_multiset().count(rt[j - 1]) > 0);
                assert(t.to_multiset().insert(p).count(rt[j - 1]) > 0);
                if rt[j - 1] != p {
                    assert(t.contains(rt[j - 1]));
                    let k = choose|k: int| 0 <= k < t.len() && t[k] == rt[j - 1];
                    assert(t[k] == s[k + 1]);
                }
            } else {
                assert(r[i] == rt[i - 1] && r[j] == rt[j - 1]);
            }
        }
        vstd::seq_lib::lemma_multiset_commutative(seq![s[0]], rt);
        vstd::seq_lib::lemma_multiset_commutative(seq![s[0]], t);
        assert(seq![s[0]] + t =~= s);
    }
}

/// Sorting by name yields a sorted permutation.
pub proof fn lemma_sort_by_name(s: Seq<PlayerView>)
    ensures
        sorted_by_name(sort_by_name(s)),
        sort_by_name(s).to_multiset() == s.to_multiset(),
        sort_by_name(s).len() == s.len(),
    decreases s.len(),
{
    broadcast use vstd::seq_lib::group_to_multiset_ensures;
    if s.len() > 0 {
        lemma_sort_by_name(s.drop_last());
        lemma_insert_sorted(sort_by_name(s.drop_last()), s.last());
        assert(s.drop_last().push(s.last()) =~= s);
    }
}

/// Adding a page keeps slugs unique and only appends players.
pub proof fn lemma_add_page(acc: Seq<PlayerView>, page: Seq<PlayerView>)
    requires
        unique_slugs(acc),
    ensures
        unique_slugs(add_page(acc, page)),
        add_page(acc, page).len() >= acc.len(),
        add_page(acc, page).subrange(0, acc.len() as int) == acc,
    decreases page.len(),
{
    if page.len() > 0 {
        lemma_add_page(acc, page.drop_last());
        let mid = add_page(acc, page.drop_last());
        if !holds_slug(mid, page.last().slug@) {
            let r = mid.push(page.last());
            assert forall|i: int, j: int| 0 <= i < j < r.len() implies r[i].slug@ != r[j].slug@ by {
                if j == r.len() - 1 {
                    assert(!(0 <= i < mid.len() && mid[i].slug@ == page.last().slug@));
                }
            }
            assert(r.subrange(0, acc.len() as int) =~= mid.subrange(0, acc.len() as int));
        }
    }
}

/// A request for one page of tokens, after `cursor` when there is one.
pub struct PageRequest {
    pub cursor: Option<String>,
    pub size: i64,
}

/// Progress of a roster load: the players seen so far, each slug once, in the order in which
/// they came, the cursor of the next page, and how many pages in a row brought nobody new.
pub struct PlayerPager {
    pub players: Vec<Player>,
    pub cursor: Option<String>,
    pub stuck_pages: u64,
    pub pages_loaded: u64,
}

/// The state of a roster load, over views.
pub struct PagerModel {
    pub players: Seq<PlayerView>,
    pub cursor: Option<String>,
    pub stuck_pages: nat,
    pub pages_loaded: nat,
}

impl View for PlayerPager {
    type V = PagerModel;

    open spec fn view(&self) -> PagerModel {
        PagerModel {
            players: players_view(self.players@),
            cursor: self.cursor,
            stuck_pages: self.stuck_pages as nat,
            pages_loaded: self.pages_loaded as nat,
        }
    }
}

/// A load that has not asked for anything yet.
pub open spec fn initial_pager() -> PagerModel {
    PagerModel { players: Seq::empty(), cursor: None, stuck_pages: 0, pages_loaded: 0 }
}

/// The load after a page of `page` players whose next cursor is `next`.
pub open spec fn pager_step(m: PagerModel, page: Seq<PlayerView>, next: Option<String>) -> PagerModel {
    let players = add_page(m.players, page);
    PagerModel {
        players,
        cursor: next,
        stuck_pages: if m.pages_loaded == 0 {
            m.stuck_pages
        } else if players.len() == m.players.len() {
            m.stuck_pages + 1
        } else {
            0
        },
        pages_loaded: m.pages_loaded + 1,
    }
}

/// Another page is wanted: the first one, or a next one while there is a cursor and the
/// pages without a new player have not gone over the ceiling.
pub open spec fn wants_page(m: PagerModel) -> bool {
    m.pages_loaded == 0 || (m.cursor is Some && m.stuck_pages <= MAX_STUCK_PAGES)
}

/// The roster a load ends with: its players sorted by name.
pub open spec fn final_roster(m: PagerModel) -> Seq<PlayerView> {
    sort_by_name(m.players)
}

/// The cursor that the next request of `m` carries.
pub open spec fn request_cursor(m: PagerModel) -> Option<String> {
    if m.pages_loaded == 0 {
        None
    } else {
        m.cursor
    }
}

/// The load after `steps` rounds against a remote source that answers the request for a cursor
/// with a page and the next cursor; a round after the load is over changes nothing.
pub open spec fn load_against(
    source: spec_fn(Option<String>) -> (Seq<PlayerView>, Option<String>),
    steps: nat,
) -> PagerModel
    decreases steps,
{
    if steps == 0 {
        initial_pager()
    } else {
        let m = load_against(source, (steps - 1) as nat);
        if wants_page(m) {
            let (page, next) = source(request_cursor(m));
            pager_step(m, page, next)
        } else {
            m
        }
    }
}

proof fn lemma_load_stays_done(
    source: spec_fn(Option<String>) -> (Seq<PlayerView>, Option<String>),
    done: nat,
    later: nat,
)
    requires
        done <= later,
        !wants_page(load_against(source, done)),
    ensures
        load_against(source, later) == load_against(source, done),
    decreases later - done,
{
    if done < later {
        lemma_load_stays_done(source, done, (later - 1) as nat);
    }
}

proof fn lemma_load_unique(
    source: spec_fn(Option<String>) -> (Seq<PlayerView>, Option<String>),
    steps: nat,
)
    ensures
        unique_slugs(load_against(source, steps).players),
    decreases steps,
{
    if steps > 0 {
        lemma_load_unique(source, (steps - 1) as nat);
        let m = load_against(source, (steps - 1) as nat);
        if wants_page(m) {
            lemma_add_page(m.players, source(request_cursor(m)).0);
        }
    }
}

/// Two loads that ran to their end against the same unchanging remote source end with the
/// same roster, however many rounds each took; that roster is sorted by name, holds each slug
/// once, and holds exactly the players kept during the load.
pub proof fn lemma_acquisition_repeatable(
    source: spec_fn(Option<String>) -> (Seq<PlayerView>, Option<String>),
    first: nat,
    second: nat,
)
    requires
        !wants_page(load_against(source, first)),
        !wants_page(load_against(source, second)),
    ensures
        load_against(source, first) == load_against(source, second),
        final_roster(load_against(source, first)) == final_roster(load_against(source, second)),
        sorted_by_name(final_roster(load_against(source, first))),
        unique_slugs(load_against(source, first).players),
        final_roster(load_against(source, first)).to_multiset() == load_against(
            source,
            first,
        ).players.to_multiset(),
{
    if first <= second {
        lemma_load_stays_done(source, first, second);
    } else {
        lemma_load_stays_done(source, second, first);
    }
    lemma_load_unique(source, first);
    lemma_sort_by_name(load_against(source, first).players);
}

/// Whether a player of `players` holds `slug`.
fn contains_slug(players: &Vec<Player>, slug: &String) -> (r: bool)
    ensures
        r == holds_slug(players_view(players@), slug@),
{
    let ghost ps = players_view(players@);
    let mut i: usize = 0;
    while i < players.len()
        invariant
            i <= players@.len(),
            ps == players_view(players@),
            forall|j: int| 0 <= j < i ==> ps[j].slug@ != slug@,
        decreases players@.len() - i,
    {
        if players[i].slug == *slug {
            assert(ps[i as int].slug@ == slug@);
            return true;
        }
        i = i + 1;
    }
    false
}

/// The lowercase characters of `p`'s display name.
fn name_key_of(p: &Player) -> (r: Vec<char>)
    ensures
        r@ == name_key(p@),
{
    let lower = lowercase(p.display_name.as_str());
    chars_of(lower.as_str())
}

/// `players` sorted by lowercase display name; players with equal keys keep their order.
pub fn sort_players(players: &Vec<Player>) -> (r: Vec<Player>)
    ensures
        players_view(r@) == sort_by_name(players_view(players@)),
        sorted_by_name(players_view(r@)),
{
    let ghost src = players_view(players@);
    let mut sorted: Vec<Player> = Vec::new();
    let mut keys: Vec<Vec<char>> = Vec::new();
    let mut i: usize = 0;
    while i < players.len()
        invariant
            i <= players@.len(),
            src == players_view(players@),
            players_view(sorted@) == sort_by_name(src.subrange(0, i as int)),
            keys@.len() == sorted@.len(),
            forall|k: int| 0 <= k < keys@.len() ==> (#[trigger] keys@[k])@ == name_key(sorted@[k]@),
        decreases players@.len() - i,
    {
        let p = players[i].clone();
        let key = name_key_of(&p);
        let ghost sv = players_view(sorted@);
        let mut j: usize = 0;
        while j < sorted.len() && !chars_less(&key, &keys[j])
            invariant
                j <= sorted@.len(),
                keys@.len() == sorted@.len(),
                sv == players_view(sorted@),
                key@ == name_key(p@),
                forall|k: int| 0 <= k < keys@.len() ==> (#[trigger] keys@[k])@ == name_key(sorted@[k]@),
                forall|k: int| 0 <= k < j ==> !chars_lt(name_key(p@), #[trigger] name_key(sv[k])),
            decreases sorted@.len() - j,
        {
            j = j + 1;
        }
        proof {
            lemma_insert_at(sv, p@, j as int);
            assert(src.subrange(0, i + 1).drop_last() =~= src.subrange(0, i as int));
            assert(src.subrange(0, i + 1).last() == p@);
        }
        let ghost old_keys = keys@;
        let ghost key_view = key;
        sorted.insert(j, p);
        keys.insert(j, key);
        proof {
            assert(players_view(sorted@) =~= sv.insert(j as int, p@));
            assert forall|k: int| 0 <= k < keys@.len() implies (#[trigger] keys@[k])@ == name_key(sorted@[k]@) by {
                assert(keys@ == old_keys.insert(j as int, key_view));
                if k > j {
                    assert(keys@[k] == old_keys[k - 1]);
                }
            }
        }
        i = i + 1;
    }
    proof {
        assert(src.subrange(0, i as int) =~= src);
        lemma_sort_by_name(src);
    }
    sorted
}

impl PlayerPager {
    /// A load that has not asked for anything yet.
    pub fn new() -> (r: PlayerPager)
        ensures
            r@ == initial_pager(),
    {
        let r = PlayerPager { players: Vec::new(), cursor: None, stuck_pages: 0, pages_loaded: 0 };
        assert(players_view(r.players@) =~= Seq::<PlayerView>::empty());
        r
    }

    /// The page to ask for next, or `None` when the load is over.
    pub fn next_request(&self) -> (r: Option<PageRequest>)
        ensures
            r is Some <==> wants_page(self@),
            r matches Some(q) ==> q.size == PAGE_SIZE && q.cursor == request_cursor(self@),
    {
        if self.pages_loaded == 0 {
            return Some(PageRequest { cursor: None, size: PAGE_SIZE });
        }
        match &self.cursor {
            Some(c) => {
                if self.stuck_pages <= MAX_STUCK_PAGES {
                    Some(PageRequest { cursor: Some(c.clone()), size: PAGE_SIZE })
                } else {
                    None
                }
            },
            None => None,
        }
    }

    /// Takes in the page that `next_request` asked for: its players and the cursor after it.
    pub fn on_page(&mut self, page: Vec<Player>, next_cursor: Option<String>)
        requires
            wants_page(old(self)@),
            old(self).pages_loaded < u64::MAX,
        ensures
            final(self)@ == pager_step(old(self)@, players_view(page@), next_cursor),
    {
        let before = self.players.len();
        let ghost acc = players_view(self.players@);
        let ghost pv = players_view(page@);
        let mut k: usize = 0;
        while k < page.len()
            invariant
                k <= page@.len(),
                pv == players_view(page@),
                players_view(self.players@) == add_page(acc, pv.subrange(0, k as int)),
                self.pages_loaded == old(self).pages_loaded,
                self.stuck_pages == old(self).stuck_pages,
                self.cursor == old(self).cursor,
                acc == players_view(old(self).players@),
                before == old(self).players@.len(),
            decreases page@.len() - k,
        {
            let p = page[k].clone();
            proof {
                assert(pv.subrange(0, k + 1).drop_last() =~= pv.subrange(0, k as int));
                assert(pv.subrange(0, k + 1).last() == p@);
            }
            if !contains_slug(&self.players, &p.slug) {
                let ghost prev = players_view(self.players@);
                self.players.push(p);
                assert(players_view(self.players@) =~= prev.push(p@));
            }
            k = k + 1;
        }
        assert(pv.subrange(0, k as int) =~= pv);
        if self.pages_loaded > 0 {
            if self.players.len() == before {
                self.stuck_pages = self.stuck_pages + 1;
            } else {
                self.stuck_pages = 0;
            }
        }
        self.cursor = next_cursor;
        self.pages_loaded = self.pages_loaded + 1;
    }

    /// The roster the load ends with: the players sorted by lowercase display name.
    pub fn finish(&self) -> (r: Vec<Player>)
        ensures
            players_view(r@) == final_roster(self@),
            sorted_by_name(players_view(r@)),
    {
        sort_players(&self.players)
    }
}

} // verus!

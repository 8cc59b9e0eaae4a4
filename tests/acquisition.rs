use socli::acquisition::{retry_load, sort_players, PlayerPager, MAX_LOAD_ATTEMPTS, PAGE_SIZE};
use socli::model::Player;

fn player(slug: &str, name: &str) -> Player {
    Player {
        slug: slug.to_string(),
        display_name: name.to_string(),
        birth_date: String::new(),
        team: None,
        prices: vec![],
        stats: None,
        injury: None,
        positions: vec![],
        country: String::new(),
        number: 0,
    }
}

fn pages() -> Vec<(Vec<Player>, Option<String>)> {
    vec![
        (vec![player("c", "carl"), player("b", "Bob")], Some("c1".to_string())),
        (vec![player("b", "Bob"), player("a", "alice")], Some("c2".to_string())),
        (vec![player("a", "alice")], None),
    ]
}

fn load(responses: Vec<(Vec<Player>, Option<String>)>) -> (Vec<Player>, Vec<Option<String>>) {
    let mut pager = PlayerPager::new();
    let mut asked = vec![];
    let mut responses = responses.into_iter();
    while let Some(req) = pager.next_request() {
        assert_eq!(req.size, PAGE_SIZE);
        asked.push(req.cursor.clone());
        match responses.next() {
            Some((page, next)) => pager.on_page(page, next),
            None => pager.on_page(vec![], None),
        }
    }
    (pager.finish(), asked)
}

#[test]
fn roster_is_deduplicated_and_sorted_ignoring_case() {
    let (roster, asked) = load(pages());
    let names: Vec<&str> = roster.iter().map(|p| p.display_name.as_str()).collect();
    assert_eq!(names, vec!["alice", "Bob", "carl"]);
    assert_eq!(asked, vec![None, Some("c1".to_string()), Some("c2".to_string())]);
}

#[test]
fn loading_twice_gives_the_same_roster() {
    let (first, _) = load(pages());
    let (second, _) = load(pages());
    assert_eq!(first, second);
}

#[test]
fn loading_stops_after_too_many_stuck_pages() {
    let mut responses = vec![(vec![player("a", "A")], Some("k".to_string()))];
    for _ in 0..20 {
        responses.push((vec![player("a", "A")], Some("k".to_string())));
    }
    let (roster, asked) = load(responses);
    assert_eq!(roster.len(), 1);
    assert_eq!(asked.len(), 12);
}

#[test]
fn equal_names_keep_their_order() {
    let sorted = sort_players(&vec![player("x", "Sam"), player("y", "sam"), player("z", "Al")]);
    let slugs: Vec<&str> = sorted.iter().map(|p| p.slug.as_str()).collect();
    assert_eq!(slugs, vec!["z", "x", "y"]);
}

#[test]
fn load_is_retried_a_bounded_number_of_times() {
    assert!(retry_load(0));
    assert!(retry_load(MAX_LOAD_ATTEMPTS - 1));
    assert!(!retry_load(MAX_LOAD_ATTEMPTS));
}

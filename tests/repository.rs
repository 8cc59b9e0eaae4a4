use socli::error::RepoError;
use socli::repository::{collection_file_name, PlayerRepoImpl};

#[test]
fn player_tests_parse_player_slug() {
    let player_repo = PlayerRepoImpl::new();
    assert_eq!(player_repo.parse_player_slug("kz-okpala-19990428-2022-rare-21").unwrap(), "kz-okpala-19990428");
    assert_eq!(player_repo.parse_player_slug("kevin-knox-ii-19990811-2022-limited-124").unwrap(), "kevin-knox-ii-19990811");
}

#[test]
fn token_without_date_is_a_read_error() {
    let repo = PlayerRepoImpl::new();
    assert_eq!(
        repo.parse_player_slug("NOSLUG"),
        Err(RepoError::Read("no player slug in token NOSLUG".to_string()))
    );
}

#[test]
fn player_slugs_of_a_page() {
    let repo = PlayerRepoImpl::new();
    let tokens = vec!["kz-okpala-19990428-2022-rare-21".to_string(), "a-b-20000101-2023-rare-1".to_string()];
    assert_eq!(repo.player_slugs(&tokens).unwrap(), vec!["kz-okpala-19990428".to_string(), "a-b-20000101".to_string()]);
    let bad = vec!["kz-okpala-19990428-2022-rare-21".to_string(), "X".to_string()];
    assert!(repo.player_slugs(&bad).is_err());
}

#[test]
fn collection_file_name_appends_json() {
    assert_eq!(collection_file_name("players"), "players.json");
}

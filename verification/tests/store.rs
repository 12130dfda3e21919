use smol_profile_card::entities::GithubUser;
use smol_profile_card::errors::StorageError;
use smol_profile_card::github_user_repository::GitHubUserRepository;

fn user(id: i32, username: &str, location: Option<&str>, expiration: i64) -> GithubUser {
    GithubUser {
        id,
        username: username.to_string(),
        name: None,
        location: location.map(|s| s.to_string()),
        avatar_url: "u".to_string(),
        expiration,
    }
}

#[test]
fn upsert_twice_keeps_one_row_and_last_values_win() {
    let mut repo = GitHubUserRepository::new();
    repo.upsert(user(1, "alice", Some("Earth"), 100)).unwrap();
    repo.upsert(user(1, "alice", Some("Mars"), 200)).unwrap();

    assert_eq!(repo.users.len(), 1);
    let row = repo.get_by_id(1).expect("one row for id 1");
    assert_eq!(row.location.as_deref(), Some("Mars"));
    assert_eq!(row.expiration, 200);
}

#[test]
fn upsert_inserts_missing_and_keeps_other_rows() {
    let mut repo = GitHubUserRepository::new();
    repo.upsert(user(1, "alice", None, 100)).unwrap();
    repo.upsert(user(2, "bob", None, 100)).unwrap();
    repo.upsert(user(2, "bobby", None, 300)).unwrap();

    assert_eq!(repo.users.len(), 2);
    assert_eq!(repo.get_by_id(1).unwrap().username, "alice");
    assert_eq!(repo.get_by_id(2).unwrap().username, "bobby");
}

#[test]
fn insert_refuses_duplicate_id() {
    let mut repo = GitHubUserRepository::new();
    assert!(repo.insert(user(1, "alice", None, 100)).is_ok());
    assert_eq!(
        repo.insert(user(1, "other", None, 200)).unwrap_err(),
        StorageError::DuplicateId
    );
    assert_eq!(repo.users.len(), 1);
    assert_eq!(repo.get_by_id(1).unwrap().username, "alice");
}

#[test]
fn update_replaces_in_place_and_misses_quietly() {
    let mut repo = GitHubUserRepository::new();
    repo.insert(user(1, "alice", None, 100)).unwrap();
    assert!(repo.update(user(1, "alicia", None, 150)).is_ok());
    assert_eq!(repo.get_by_id(1).unwrap().username, "alicia");

    // Updating an id with no row succeeds and changes nothing.
    assert!(repo.update(user(9, "ghost", None, 1)).is_ok());
    assert_eq!(repo.users.len(), 1);
    assert!(repo.get_by_id(9).is_none());
}

#[test]
fn username_lookup_is_case_insensitive() {
    let mut repo = GitHubUserRepository::new();
    repo.upsert(user(1, "Alice", None, 100)).unwrap();

    let lower = repo.get_by_username("alice").expect("lower-case query finds the row");
    let upper = repo.get_by_username("ALICE").expect("upper-case query finds the row");
    assert_eq!(lower.id, 1);
    assert_eq!(upper.id, 1);
    assert_eq!(lower.username, "Alice");
    assert_eq!(upper.username, "Alice");
    assert!(repo.get_by_username("alicia").is_none());
}

#[test]
fn username_lookup_returns_first_match_in_row_order() {
    let mut repo = GitHubUserRepository::new();
    repo.upsert(user(1, "Alice", Some("Earth"), 100)).unwrap();
    repo.upsert(user(2, "alice", Some("Mars"), 100)).unwrap();

    let row = repo.get_by_username("ALICE").expect("a matching row");
    assert_eq!(row.id, 1);
}

#[test]
fn id_lookup_misses_on_empty_store() {
    let repo = GitHubUserRepository::new();
    assert!(repo.get_by_id(1).is_none());
    assert!(repo.get_by_username("anyone").is_none());
}

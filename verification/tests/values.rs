use smol_profile_card::controllers::{get_status_title, image_html, GithubUserViewModel};
use smol_profile_card::github_user_mapper::{to_entity, to_model};
use smol_profile_card::entities;
use smol_profile_card::models;
use smol_profile_card::numeric::{i64_to_string, parse_i64_or_zero, sat_add_i64, u64_to_string};
use smol_profile_card::pronouns_mapper::PronounsMapper;
use smol_profile_card::text::{eq_ignore_ascii_case, str_eq};
use smol_profile_card::urls::{avatar_url_by_id, profile_url};
use smol_profile_card::validators::{
    is_str_alphanumeric, is_str_valid_length, is_str_valid_pattern,
};

#[test]
fn parse_accepts_plain_decimal_integers() {
    assert_eq!(parse_i64_or_zero("0"), 0);
    assert_eq!(parse_i64_or_zero("0042"), 42);
    assert_eq!(parse_i64_or_zero("9223372036854775807"), i64::MAX);
    assert_eq!(parse_i64_or_zero("-9223372036854775808"), i64::MIN);
}

#[test]
fn parse_defaults_to_zero_on_anything_else() {
    assert_eq!(parse_i64_or_zero(""), 0);
    assert_eq!(parse_i64_or_zero("-"), 0);
    assert_eq!(parse_i64_or_zero("+"), 0);
    assert_eq!(parse_i64_or_zero(" 42"), 0);
    assert_eq!(parse_i64_or_zero("42 "), 0);
    assert_eq!(parse_i64_or_zero("9223372036854775808"), 0);
    assert_eq!(parse_i64_or_zero("-9223372036854775809"), 0);
    assert_eq!(parse_i64_or_zero("99999999999999999999999999"), 0);
    assert_eq!(parse_i64_or_zero("12.5"), 0);
}

#[test]
fn formatting_writes_decimal() {
    assert_eq!(u64_to_string(0), "0");
    assert_eq!(u64_to_string(407), "407");
    assert_eq!(u64_to_string(u64::MAX), "18446744073709551615");
    assert_eq!(i64_to_string(-35), "-35");
    assert_eq!(i64_to_string(i64::MIN), "-9223372036854775808");
}

#[test]
fn saturating_addition_clamps_at_the_ends() {
    assert_eq!(sat_add_i64(1, 2), 3);
    assert_eq!(sat_add_i64(i64::MAX, 1), i64::MAX);
    assert_eq!(sat_add_i64(i64::MIN, -1), i64::MIN);
    assert_eq!(sat_add_i64(5, 0), 5);
}

#[test]
fn urls_carry_id_and_encoded_username() {
    assert_eq!(avatar_url_by_id(123), "https://avatars.githubusercontent.com/u/123?v=4");
    assert_eq!(profile_url("alice"), "https://api.github.com/users/alice");
    // A space must be percent-encoded on its way into the path.
    assert_eq!(profile_url("a b"), "https://api.github.com/users/a%20b");
}

#[test]
fn validators_measure_bytes_and_characters() {
    assert!(is_str_valid_length("alice", 0, 39));
    assert!(!is_str_valid_length("alice", 6, 39));
    assert!(!is_str_valid_length("alice", 0, 4));
    // Byte length, not character count.
    assert!(!is_str_valid_length("ééé", 0, 5));

    assert!(is_str_valid_pattern("alice", "'\"/"));
    assert!(!is_str_valid_pattern("a/b", "'\"/"));
    assert!(is_str_valid_pattern("", "'\"/"));
    assert!(is_str_valid_pattern("anything", ""));

    assert!(is_str_alphanumeric("abc123"));
    assert!(!is_str_alphanumeric("a-b"));
    assert!(!is_str_alphanumeric("a b"));
    assert!(is_str_alphanumeric(""));
}

#[test]
fn view_model_validation_guards_delimiters_and_length() {
    let ok = GithubUserViewModel { user: "alice".to_string(), pronouns: None };
    assert!(ok.is_valid());

    let with_pronouns = GithubUserViewModel {
        user: "alice".to_string(),
        pronouns: Some("she-her".to_string()),
    };
    assert!(with_pronouns.is_valid());

    let quoted = GithubUserViewModel { user: "al\"ice".to_string(), pronouns: None };
    assert!(!quoted.is_valid());

    let bad_pronouns = GithubUserViewModel {
        user: "alice".to_string(),
        pronouns: Some("she/her".to_string()),
    };
    assert!(!bad_pronouns.is_valid());

    let too_long = GithubUserViewModel {
        user: "a".repeat(40),
        pronouns: None,
    };
    assert!(!too_long.is_valid());
}

#[test]
fn pronoun_queries_map_to_tags() {
    let mapper = PronounsMapper::new();
    assert_eq!(mapper.to_pronouns_tag("she-her").as_deref(), Some("she/her"));
    assert_eq!(mapper.to_pronouns_tag("they-them").as_deref(), Some("they/them"));
    assert_eq!(mapper.to_pronouns_tag("ze-hir").as_deref(), Some("ze/hir"));
    assert_eq!(mapper.to_pronouns_tag("xe-one's").as_deref(), Some("xe/one's"));
    assert_eq!(mapper.to_pronouns_tag("she/her"), None);
    assert_eq!(mapper.to_pronouns_tag("cat-dog"), None);
    assert_eq!(mapper.to_pronouns_tag(""), None);
}

#[test]
fn status_title_joins_code_and_reason() {
    assert_eq!(get_status_title(404, "Not Found"), "404 Not Found");
    assert_eq!(get_status_title(500, ""), "500 ");
}

#[test]
fn image_markup_wires_the_query_through() {
    assert_eq!(
        image_html("alice", "she/her"),
        "<img class=\"img-fluid img-thumbnail\" \
         src=\"http://localhost:8080/image?user=alice&pronouns=she/her\"/>"
    );
}

#[test]
fn mappers_carry_fields_both_ways() {
    let model = models::GithubUser {
        id: 3,
        login: "erin".to_string(),
        name: Some("Erin".to_string()),
        location: None,
        avatar_url: "https://example.invalid/a.png".to_string(),
    };
    let entity = to_entity(&model, 777);
    assert_eq!(entity.id, 3);
    assert_eq!(entity.username, "erin");
    assert_eq!(entity.name.as_deref(), Some("Erin"));
    assert_eq!(entity.expiration, 777);

    let back = to_model(&entity);
    assert_eq!(back.id, 3);
    assert_eq!(back.login, "erin");
    assert_eq!(back.avatar_url, "https://example.invalid/a.png");

    let stored = entities::GithubUser {
        id: 4,
        username: "frank".to_string(),
        name: None,
        location: Some("Moon".to_string()),
        avatar_url: "u".to_string(),
        expiration: 1,
    };
    let as_model = to_model(&stored);
    assert_eq!(as_model.location.as_deref(), Some("Moon"));
}

#[test]
fn string_comparisons_fold_only_ascii_case() {
    assert!(eq_ignore_ascii_case("Alice", "aLICE"));
    assert!(eq_ignore_ascii_case("", ""));
    assert!(!eq_ignore_ascii_case("alice", "alicia"));
    assert!(!eq_ignore_ascii_case("éx", "Éx"));

    assert!(str_eq("same", "same"));
    assert!(!str_eq("same", "Same"));
}

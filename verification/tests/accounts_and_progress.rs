use std::collections::HashMap;
use std::time::{SystemTime, UNIX_EPOCH};

use argon2::password_hash::{PasswordHash, PasswordVerifier};
use firms_api::auth::{request_token, request_user, user_from_subject, RequestUser};
use firms_api::crawl::crawled_price_category;
use firms_api::ids::{new_random_id, uuid_to_string};
use firms_api::inputs::{hash_password, new_user, new_user_values, RegisterUserSchema};
use firms_api::visits::{check_outcome, next_check, Check, Crawl, Observation, VisitNext};
use firms_api::progress::{
    crawl_after, crawl_start, next_crawl_action, CrawlAction, CrawlState, FirmOutcome,
};

fn schema(password: &str) -> RegisterUserSchema {
    RegisterUserSchema {
        name: "Анна".to_string(),
        email: "Anna@Example.COM".to_string(),
        password: password.to_string(),
    }
}

#[test]
fn password_hash_is_argon2_of_the_password() {
    let salt = "c29tZXNhbHRzb21lc2FsdA";
    let hash = hash_password("secret", salt).unwrap();
    assert!(hash.starts_with("$argon2id$v=19$m=19456,t=2,p=1$c29tZXNhbHRzb21lc2FsdA$"));
    let parsed = PasswordHash::new(&hash).unwrap();
    assert!(argon2::Argon2::default().verify_password(b"secret", &parsed).is_ok());
    assert!(argon2::Argon2::default().verify_password(b"other", &parsed).is_err());
    assert_eq!(hash_password("secret", salt), Some(hash));
    assert_eq!(hash_password("secret", "!"), None);
}

#[test]
fn new_user_values_hash_the_password_and_lower_case_the_email() {
    let salt = "c29tZXNhbHRzb21lc2FsdA";
    let user = new_user_values(&schema("secret"), salt).unwrap();
    assert_eq!(user.name, "Анна");
    assert_eq!(user.email, "anna@example.com");
    assert_eq!(Some(user.password_hash), hash_password("secret", salt));
    assert_eq!(new_user_values(&schema("secret"), "!"), None);
}

#[test]
fn new_user_uses_a_fresh_salt_of_22_characters() {
    let first = new_user(&schema("secret")).unwrap();
    let second = new_user(&schema("secret")).unwrap();
    assert_eq!(first.email, "anna@example.com");
    let salt = first.password_hash.split('$').nth(4).unwrap();
    assert_eq!(salt.len(), 22);
    assert_eq!(Some(first.password_hash.clone()), hash_password("secret", salt));
    assert_ne!(first.password_hash, second.password_hash);
}

#[test]
fn token_comes_from_the_cookie_first() {
    assert_eq!(
        request_token(Some("from-cookie".to_string()), Some("Bearer from-header")),
        Some("from-cookie".to_string())
    );
    assert_eq!(request_token(None, Some("Bearer from-header")), Some("from-header".to_string()));
    assert_eq!(request_token(None, None), None);
}

fn signed_token(sub: &str, exp: u64, secret: &str) -> String {
    let mut claims: HashMap<String, serde_json::Value> = HashMap::new();
    claims.insert("sub".to_string(), serde_json::Value::String(sub.to_string()));
    claims.insert("iat".to_string(), serde_json::Value::from(exp - 60));
    claims.insert("exp".to_string(), serde_json::Value::from(exp));
    jsonwebtoken::encode(
        &jsonwebtoken::Header::default(),
        &claims,
        &jsonwebtoken::EncodingKey::from_secret(secret.as_bytes()),
    )
    .unwrap()
}

fn now() -> u64 {
    SystemTime::now().duration_since(UNIX_EPOCH).unwrap().as_secs()
}

#[test]
fn request_user_reads_the_subject_of_the_token() {
    let id: u128 = 0x550e8400e29b41d4a716446655440000;
    let good = signed_token(&uuid_to_string(id), now() + 3600, "key");
    assert_eq!(request_user(Some(good.clone()), None, "key"), RequestUser::User(id));
    let header = format!("Bearer {}", good);
    assert_eq!(request_user(None, Some(header.as_str()), "key"), RequestUser::User(id));
    assert_eq!(request_user(None, None, "key"), RequestUser::Anonymous);
    assert_eq!(request_user(Some(good), None, "other key"), RequestUser::InvalidToken);
    let expired = signed_token(&uuid_to_string(id), now() - 3600, "key");
    assert_eq!(request_user(Some(expired), None, "key"), RequestUser::InvalidToken);
    let not_an_id = signed_token("admin", now() + 3600, "key");
    assert_eq!(request_user(Some(not_an_id), None, "key"), RequestUser::InvalidSubject);
}

#[test]
fn subjects_are_read_as_user_ids() {
    assert_eq!(user_from_subject(None), RequestUser::InvalidToken);
    assert_eq!(user_from_subject(Some("nobody".to_string())), RequestUser::InvalidSubject);
    assert_eq!(
        user_from_subject(Some("550e8400-e29b-41d4-a716-446655440000".to_string())),
        RequestUser::User(0x550e8400e29b41d4a716446655440000)
    );
}

#[test]
fn random_ids_are_version_4() {
    for _ in 0..20 {
        let id = new_random_id();
        assert_eq!(uuid::Uuid::from_u128(id).get_version_num(), 4);
        assert_eq!(uuid::Uuid::from_u128(id).get_variant(), uuid::Variant::RFC4122);
    }
    assert_ne!(new_random_id(), new_random_id());
}

#[test]
fn crawled_price_category_keeps_what_was_read() {
    let c = crawled_price_category(7, "Шиномонтаж", "12");
    assert_eq!(c.firm_id, 7);
    assert_eq!(c.name, Some("Шиномонтаж".to_string()));
    assert_eq!(c.value, Some("12".to_string()));
    assert_eq!(uuid::Uuid::from_u128(c.price_category_id).get_version_num(), 4);
}

fn run(stored: &str, last: i64, outcomes: &[FirmOutcome]) -> (Vec<i64>, Vec<String>) {
    let mut state = crawl_start(&Some(stored.to_string()), last).unwrap();
    let mut visited = Vec::new();
    let mut counters = Vec::new();
    for outcome in outcomes {
        match next_crawl_action(&state) {
            CrawlAction::Finish => break,
            CrawlAction::Visit(j) => {
                visited.push(j);
                let (next, stored) = crawl_after(&state, *outcome);
                if let Some(t) = stored {
                    counters.push(t);
                }
                state = next;
            }
        }
    }
    (visited, counters)
}

#[test]
fn crawl_starts_where_the_counter_stands() {
    assert_eq!(
        crawl_start(&Some("5".to_string()), 9),
        Some(CrawlState { next: 5, last: 9, finished: false })
    );
    assert_eq!(crawl_start(&Some("five".to_string()), 9), None);
    assert_eq!(crawl_start(&None, 9), None);
    let state = CrawlState { next: 10, last: 9, finished: false };
    assert_eq!(next_crawl_action(&state), CrawlAction::Finish);
}

#[test]
fn crawl_visits_each_firm_once_in_order() {
    let outcomes = [
        FirmOutcome::Done,
        FirmOutcome::Skipped,
        FirmOutcome::AlreadyStored,
        FirmOutcome::Done,
        FirmOutcome::Done,
        FirmOutcome::Done,
        FirmOutcome::Done,
    ];
    let (visited, counters) = run("3", 7, &outcomes);
    assert_eq!(visited, vec![3, 4, 5, 6, 7]);
    assert_eq!(counters, vec!["4".to_string(), "7".to_string(), "8".to_string()]);
    let (visited, _) = run("3", 100, &outcomes[..2]);
    assert_eq!(visited, vec![3, 4]);
}

#[test]
fn crawl_resumes_after_the_stored_counter() {
    let (_, counters) = run("0", 9, &[FirmOutcome::Done, FirmOutcome::Done, FirmOutcome::Done]);
    let resumed = crawl_start(&Some(counters.last().unwrap().clone()), 9).unwrap();
    assert_eq!(next_crawl_action(&resumed), CrawlAction::Visit(3));
    let (visited, _) = run("-1", i64::MAX, &[FirmOutcome::Done, FirmOutcome::Done]);
    assert_eq!(visited, vec![-1, 0]);
}

#[test]
fn price_walk_without_the_page_first_category() {
    let start = firms_api::crawl::price_plan_start();
    let (p1, r1) = firms_api::crawl::price_category_step(&start, 1, "3", 100).unwrap();
    assert_eq!(r1, firms_api::crawl::ItemRange { first: 1, last: 0 });
    let (_, r2) = firms_api::crawl::price_category_step(&p1, 2, "4", 100).unwrap();
    assert_eq!(r2, firms_api::crawl::ItemRange { first: 4, last: 2 });
}

fn checks_of(crawl: Crawl) -> Vec<Check> {
    let mut checks = Vec::new();
    let mut made = 0;
    while let VisitNext::Make(c) = next_check(crawl, made) {
        checks.push(c);
        made += 1;
    }
    checks
}

#[test]
fn each_crawl_makes_its_checks_in_order() {
    assert_eq!(checks_of(Crawl::Addresses), vec![Check::NoAddress]);
    assert_eq!(checks_of(Crawl::Descriptions), vec![Check::ClosedFirm]);
    assert_eq!(checks_of(Crawl::Infos), vec![Check::ClosedFirm]);
    assert_eq!(
        checks_of(Crawl::Prices),
        vec![Check::AlreadyStored, Check::NoPriceList, Check::OtherCatalogues, Check::NothingShown]
    );
    assert_eq!(checks_of(Crawl::Reviews), vec![Check::AlreadyStored, Check::NoReviews, Check::NothingShown]);
    assert_eq!(
        checks_of(Crawl::GeneratedReviews),
        vec![Check::AlreadyStored, Check::TooFewReviews, Check::EmptyAnswer]
    );
}

#[test]
fn checks_decide_what_becomes_of_a_firm() {
    assert_eq!(check_outcome(Check::AlreadyStored, &Observation::Stored(true)), Some(FirmOutcome::AlreadyStored));
    assert_eq!(check_outcome(Check::AlreadyStored, &Observation::Stored(false)), None);
    let closed = Observation::Page("<div>Скоро открытие</div>".to_string());
    assert_eq!(check_outcome(Check::ClosedFirm, &closed), Some(FirmOutcome::Skipped));
    assert_eq!(check_outcome(Check::NoReviews, &closed), Some(FirmOutcome::Skipped));
    let open = Observation::Page("<div>Отзывы 12</div>".to_string());
    assert_eq!(check_outcome(Check::ClosedFirm, &open), None);
    assert_eq!(check_outcome(Check::NoPriceList, &Observation::Page("_14quei".to_string())), Some(FirmOutcome::Skipped));
    assert_eq!(check_outcome(Check::OtherCatalogues, &Observation::Counts(0, 0)), None);
    assert_eq!(check_outcome(Check::OtherCatalogues, &Observation::Counts(0, 2)), Some(FirmOutcome::Skipped));
    assert_eq!(check_outcome(Check::NothingShown, &Observation::ShownZero(true)), Some(FirmOutcome::Skipped));
    assert_eq!(check_outcome(Check::NoAddress, &Observation::Address(None)), None);
    assert_eq!(
        check_outcome(Check::NoAddress, &Observation::Address(Some((String::new(), String::new())))),
        Some(FirmOutcome::Skipped)
    );
    assert_eq!(
        check_outcome(Check::NoAddress, &Observation::Address(Some(("Ленина, 1".to_string(), "Москва".to_string())))),
        None
    );
    assert_eq!(
        check_outcome(Check::TooFewReviews, &Observation::Reviews(vec![Some("ok".to_string())])),
        Some(FirmOutcome::Skipped)
    );
    assert_eq!(
        check_outcome(Check::TooFewReviews, &Observation::Reviews(vec![Some("ok".to_string()), None])),
        None
    );
    assert_eq!(check_outcome(Check::EmptyAnswer, &Observation::Answer(Some(String::new()))), Some(FirmOutcome::Skipped));
    assert_eq!(check_outcome(Check::EmptyAnswer, &Observation::Answer(Some("text".to_string()))), None);
    assert_eq!(check_outcome(Check::EmptyAnswer, &Observation::Answer(None)), None);
}

#[test]
fn token_subject_needs_the_right_key() {
    let token = signed_token("someone", now() + 3600, "key");
    assert_eq!(firms_api::auth::token_subject(&token, "key"), Some("someone".to_string()));
    assert_eq!(firms_api::auth::token_subject(&token, "other"), None);
    assert_eq!(firms_api::auth::token_subject("key", &token), None);
}

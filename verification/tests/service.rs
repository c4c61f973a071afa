use firms_api::auth::{bearer_token, roles_for_user, roles_without_token, Role};
use firms_api::errors::{query_failure, query_result, CustomError};
use firms_api::inputs::{
    quote_values, registered_email, review_values, AddQuoteSchema, AddReview, RegisterUserSchema,
};
use firms_api::shared::{page_window, FilterExtOptions, FilterOptions, PageWindow};

#[test]
fn page_window_defaults_and_offsets() {
    assert_eq!(page_window(None, None), Some(PageWindow { limit: 10, offset: 0 }));
    assert_eq!(page_window(Some(3), Some(5)), Some(PageWindow { limit: 5, offset: 10 }));
    assert_eq!(page_window(Some(1), Some(0)), Some(PageWindow { limit: 0, offset: 0 }));
    assert_eq!(page_window(None, Some(7)), Some(PageWindow { limit: 7, offset: 0 }));
    assert_eq!(page_window(Some(2), None), Some(PageWindow { limit: 10, offset: 10 }));
}

#[test]
fn page_window_refuses_page_zero_and_overflow() {
    assert_eq!(page_window(Some(0), None), None);
    assert_eq!(page_window(Some(usize::MAX), Some(2)), None);
    assert_eq!(page_window(Some(usize::MAX), Some(1)), Some(PageWindow { limit: 1, offset: usize::MAX - 1 }));
}

#[test]
fn option_structs_give_their_window() {
    let o = FilterOptions { page: Some(4), limit: Some(20) };
    assert_eq!(o.window(), Some(PageWindow { limit: 20, offset: 60 }));
    let e = FilterExtOptions { input: None, city_id: Some("moscow".to_string()), category_id: None, page: None, limit: None };
    assert_eq!(e.window(), Some(PageWindow { limit: 10, offset: 0 }));
}

#[test]
fn errors_have_status_and_message() {
    let nf = CustomError::NotFound("/x".to_string());
    assert_eq!(nf.status_code(), 404);
    assert_eq!(nf.message(), "Endpoint is not found: /x");
    let ie = CustomError::InternalError("boom".to_string());
    assert_eq!(ie.status_code(), 500);
    assert_eq!(ie.message(), "Internal server error: boom");
}

#[test]
fn failed_queries_become_internal_errors() {
    assert_eq!(
        query_failure("get_pages"),
        CustomError::InternalError("Что-то пошло не так во время запроса get_pages".to_string())
    );
    let ok: Result<u32, &str> = Ok(7);
    assert_eq!(query_result(ok, "get_pages"), Ok(7));
    let err: Result<u32, &str> = Err("connection reset");
    assert_eq!(
        query_result(err, "get_city_by_abbr"),
        Err(CustomError::InternalError("Что-то пошло не так во время запроса get_city_by_abbr".to_string()))
    );
}

#[test]
fn roles_follow_the_user_role() {
    assert_eq!(roles_for_user("admin"), vec![Role::Admin]);
    assert_eq!(roles_for_user("Admin"), vec![Role::Manager]);
    assert_eq!(roles_for_user("user"), vec![Role::Manager]);
    assert_eq!(roles_for_user(""), vec![Role::Manager]);
    assert_eq!(roles_without_token(), vec![Role::Manager]);
}

#[test]
fn bearer_token_drops_the_scheme() {
    assert_eq!(bearer_token("Bearer abc.def.ghi"), "abc.def.ghi");
    assert_eq!(bearer_token("Bearer "), "");
    let h = "Bearer xyz";
    assert_eq!(bearer_token(h), h.split_at(7).1);
}

#[test]
fn inputs_are_lower_cased() {
    let u = RegisterUserSchema { name: "Ivan".to_string(), email: "Ivan@Example.ORG".to_string(), password: "p".to_string() };
    assert_eq!(registered_email(&u), "ivan@example.org");
    let q = AddQuoteSchema { text: "Быстро И Честно".to_string(), author: "ИВАН".to_string() };
    assert_eq!(quote_values(&q), ("быстро и честно".to_string(), "иван".to_string()));
}

#[test]
fn review_values_read_the_firm() {
    let r = AddReview {
        firm_id: "550e8400-e29b-41d4-a716-446655440000".to_string(),
        text: "Отлично".to_string(),
        author: "Петр".to_string(),
        rating: "FIVE".to_string(),
    };
    let v = review_values(&r).unwrap();
    assert_eq!(v.firm_id, 0x550e8400e29b41d4a716446655440000);
    assert_eq!(v.text, "отлично");
    assert_eq!(v.author, "петр");
    assert_eq!(v.rating, "five");
    assert!(!v.parsed);
    let bad = AddReview { firm_id: "42".to_string(), ..r };
    assert_eq!(review_values(&bad), None);
}

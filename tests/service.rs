use catch_service::catch::{Catch, Measure};
use catch_service::repository::{InMemoryRepository, RepositoryError};
use catch_service::service::{get_catch_details, get_catches, reject, route, serve, Response, Route};

fn salmon(id: u64) -> Catch {
    Catch::new(
        id,
        "Salmon".to_string(),
        Measure::from_thousandths(5000),
        Measure::from_thousandths(20000),
        "https://example.com/1.jpg".to_string(),
    )
}

const SALMON_JSON: &str =
    "{\"id\":1,\"species\":\"Salmon\",\"weight\":5.0,\"length\":20.0,\"photo_url\":\"https://example.com/1.jpg\"}";

fn one_salmon() -> InMemoryRepository {
    InMemoryRepository::from_catches(vec![salmon(1)]).unwrap()
}

#[test]
fn list_single_record() {
    let r = serve(&one_salmon(), "GET", "/catches");
    assert_eq!(r.status, 200);
    assert_eq!(r.body, format!("[{}]", SALMON_JSON));
}

#[test]
fn detail_found_and_missing() {
    let repo = one_salmon();
    let r = serve(&repo, "GET", "/catch/1");
    assert_eq!(r.status, 200);
    assert_eq!(r.body, SALMON_JSON);
    let r = serve(&repo, "GET", "/catch/2");
    assert_eq!(r.status, 404);
    assert!(!r.body.contains("Salmon"));
}

#[test]
fn detail_non_numeric_id() {
    let r = serve(&one_salmon(), "GET", "/catch/abc");
    assert_eq!(r.status, 400);
    assert_eq!(r.body, "{\"error\":\"malformed id\",\"field\":\"id\"}");
}

#[test]
fn listing_repository_failure() {
    for e in [RepositoryError::Unavailable, RepositoryError::TimedOut] {
        let r = get_catches(Err(e));
        assert_eq!(r.status, 503);
        assert_eq!(r.body, "{\"error\":\"repository unavailable\"}");
        assert!(!r.body.contains('['));
    }
}

#[test]
fn detail_repository_failure() {
    let r = get_catch_details(1, Err(RepositoryError::TimedOut));
    assert_eq!(r.status, 503);
    assert!(!r.body.contains("Salmon"));
}

#[test]
fn detail_foreign_record_is_unexpected() {
    let r = get_catch_details(2, Ok(Some(salmon(1))));
    assert_eq!(r.status, 500);
    assert!(!r.body.contains("Salmon"));
}

#[test]
fn empty_repository_lists_empty_array() {
    let r = serve(&InMemoryRepository::new(), "GET", "/catches");
    assert_eq!(r, Response { status: 200, body: "[]".to_string() });
    let r = get_catches(Ok(Vec::new()));
    assert_eq!(r.body, "[]");
}

#[test]
fn malformed_ids_are_bad_requests() {
    let repo = one_salmon();
    for path in ["/catch/", "/catch/-1", "/catch/abc", "/catch/1a", "/catch/+1", "/catch/ 1", "/catch/18446744073709551616"] {
        assert_eq!(serve(&repo, "GET", path).status, 400, "{}", path);
    }
}

#[test]
fn absent_ids_are_not_found() {
    let repo = one_salmon();
    for path in ["/catch/0", "/catch/2", "/catch/18446744073709551615"] {
        assert_eq!(serve(&repo, "GET", path).status, 404, "{}", path);
    }
    assert_eq!(serve(&InMemoryRepository::new(), "GET", "/catch/1").status, 404);
}

#[test]
fn leading_zeros_name_the_same_id() {
    assert_eq!(serve(&one_salmon(), "GET", "/catch/001").body, SALMON_JSON);
}

#[test]
fn listed_records_are_found_again() {
    let mut catches = Vec::new();
    for id in [7u64, 3, 12] {
        catches.push(Catch::new(
            id,
            "Tuna".to_string(),
            Measure::from_thousandths(10000 + id),
            Measure::from_thousandths(30000),
            "https://via.placeholder.com/150".to_string(),
        ));
    }
    let repo = InMemoryRepository::from_catches(catches.clone()).unwrap();
    assert_eq!(repo.list(), catches);
    for c in &catches {
        assert_eq!(repo.get_by_id(c.id), Some(c.clone()));
        let listed = serve(&repo, "GET", "/catches").body;
        let detail = serve(&repo, "GET", &format!("/catch/{}", c.id)).body;
        assert!(listed.contains(&detail));
    }
}

#[test]
fn listing_keeps_repository_order() {
    let repo = InMemoryRepository::from_catches(vec![salmon(2), salmon(1)]).unwrap();
    let body = serve(&repo, "GET", "/catches").body;
    assert!(body.starts_with("[{\"id\":2,"));
    assert!(body.contains("},{\"id\":1,"));
}

#[test]
fn duplicate_ids_are_refused() {
    assert!(InMemoryRepository::from_catches(vec![salmon(1), salmon(1)]).is_none());
    assert!(InMemoryRepository::from_catches(vec![salmon(1), salmon(2)]).is_some());
    assert!(InMemoryRepository::from_catches(Vec::new()).is_some());
}

#[test]
fn routes_of_requests() {
    assert_eq!(route("GET", "/catches"), Route::ListCatches);
    assert_eq!(route("GET", "/catch/42"), Route::CatchDetail(42));
    assert_eq!(route("GET", "/catch/x"), Route::InvalidId);
    assert_eq!(route("POST", "/catches"), Route::MethodNotAllowed);
    assert_eq!(route("DELETE", "/catch/1"), Route::MethodNotAllowed);
    assert_eq!(route("GET", "/catch/1/2"), Route::NotFound);
    assert_eq!(route("GET", "/catche"), Route::NotFound);
    assert_eq!(route("GET", "/"), Route::NotFound);
}

#[test]
fn rejections() {
    assert_eq!(reject(Route::InvalidId).status, 400);
    assert_eq!(reject(Route::MethodNotAllowed).status, 405);
    assert_eq!(reject(Route::NotFound).status, 404);
    assert_eq!(serve(&one_salmon(), "PUT", "/catches").status, 405);
    assert_eq!(serve(&one_salmon(), "GET", "/fish").status, 404);
}

use geocache::auth::AuthInfo;
use geocache::db::{Cache, CacheId, CacheUpdate, DatabaseErrorResponse, LatLong};
use geocache::routes::create::{
    create_cache, create_cache_response, CacheAdded, CacheError, CacheErrorResponse,
};
use geocache::routes::delete::{
    delete_cache, delete_cache_response, DeleteResult, DeleteResultResponse,
};
use geocache::routes::edit::{
    edit_cache, edit_cache_response, CacheEditError, CacheEditErrorResponse, CacheEditResponse,
};
use geocache::routes::routes_path;
use geocache::routes::view::{
    view_cache, view_cache_response, view_caches, view_caches_response, CacheView,
    CacheViewErrorResponse, CacheViewErrors, CacheViewParameters, CacheViewResponse,
};
use geocache::{not_found_catcher, unhandled_catcher, ResponseError};

const HEX: &str = "507f1f77bcf86cd799439011";
const BYTES: [u8; 12] = [0x50, 0x7f, 0x1f, 0x77, 0xbc, 0xf8, 0x6c, 0xd7, 0x99, 0x43, 0x90, 0x11];

fn db_error(report: &str) -> DatabaseErrorResponse {
    DatabaseErrorResponse { message: "Database error".to_string(), logged: report.to_string() }
}

fn record(id: u8, lat: i64, lng: i64, owner: i32) -> Cache {
    Cache {
        id: Some(CacheId { bytes: [id; 12] }),
        position: LatLong { lat, lng },
        description: Some(format!("cache {}", id)),
        hint: Some("hint".to_string()),
        owner_id: Some(owner),
    }
}

#[test]
fn response_error_keeps_its_message() {
    assert_eq!(
        ResponseError::new("boom".to_string()),
        ResponseError { message: "boom".to_string() }
    );
}

#[test]
fn not_found_names_path_and_method() {
    assert_eq!(
        not_found_catcher("/api/v1/nothing", "GET").message,
        "URL: '/api/v1/nothing' not found for method GET"
    );
    assert_eq!(not_found_catcher("", "").message, "URL: '' not found for method ");
}

#[test]
fn unhandled_attaches_the_request() {
    assert_eq!(
        unhandled_catcher("/api/v1/cache", "POST", "POST /api/v1/cache application/json").message,
        "There are unhandled error in URL '/api/v1/cache' for method POST.\n         Contact a support. With folowing message but make sure to delete keys, password, etc from it:\n         REQUEST:\n         POST /api/v1/cache application/json"
    );
}

#[test]
fn routes_are_mounted_under_cache() {
    assert_eq!(routes_path("/api/v1"), "/api/v1/cache");
    assert_eq!(routes_path(""), "/cache");
}

#[test]
fn database_error_hides_the_report() {
    let response = DatabaseErrorResponse::new("connection reset by peer".to_string());
    assert_eq!(response.message, "Database error");
    assert_eq!(response.logged, "connection reset by peer");
    assert_eq!(response.status(), 500);
}

#[test]
fn creation_forces_the_owner() {
    let mut body = record(1, 10, 20, 999);
    body.id = None;
    let created = create_cache(body, &AuthInfo { user_id: 42 });
    assert_eq!(created.owner_id, Some(42));
    assert_eq!(
        created,
        Cache {
            id: None,
            position: LatLong { lat: 10, lng: 20 },
            description: Some("cache 1".to_string()),
            hint: Some("hint".to_string()),
            owner_id: Some(42),
        }
    );
}

#[test]
fn creation_sets_the_owner_of_a_body_without_one() {
    let body = Cache {
        id: None,
        position: LatLong { lat: 10, lng: 20 },
        description: None,
        hint: None,
        owner_id: None,
    };
    let created = create_cache(body, &AuthInfo { user_id: 7 });
    assert_eq!(
        created,
        Cache {
            id: None,
            position: LatLong { lat: 10, lng: 20 },
            description: None,
            hint: None,
            owner_id: Some(7),
        }
    );
}

#[test]
fn creation_drops_an_identifier_of_the_body() {
    let created = create_cache(record(1, 10, 20, 999), &AuthInfo { user_id: 42 });
    assert_eq!(created.id, None);
}

#[test]
fn creation_answers_with_the_identifier() {
    let response = create_cache_response(Ok(CacheId { bytes: BYTES }));
    assert_eq!(response, Ok(CacheAdded { id: HEX.to_string() }));
    assert_eq!(response.unwrap().status(), 201);
    assert_eq!(CacheAdded::new(CacheId { bytes: [0xab; 12] }).id, "abababababababababababab");
}

#[test]
fn creation_reports_a_store_failure() {
    let response = create_cache_response(Err("timeout".to_string()));
    assert_eq!(response, Err(CacheErrorResponse::DBError(db_error("timeout"))));
    assert_eq!(response.unwrap_err().status(), 500);
    assert_eq!(
        CacheErrorResponse::from_error(CacheError::DatabaseError("x".to_string())),
        CacheErrorResponse::DBError(db_error("x"))
    );
}

#[test]
fn listing_answers_with_projected_records() {
    let found = vec![record(1, 10, 20, 7), record(2, -3, 4, 8)];
    let response = view_caches_response(Ok(found)).unwrap();
    assert_eq!(response.status(), 200);
    assert_eq!(
        response,
        CacheViewResponse(CacheView {
            caches: vec![
                Cache {
                    id: Some(CacheId { bytes: [1; 12] }),
                    position: LatLong { lat: 10, lng: 20 },
                    description: None,
                    hint: None,
                    owner_id: None,
                },
                Cache {
                    id: Some(CacheId { bytes: [2; 12] }),
                    position: LatLong { lat: -3, lng: 4 },
                    description: None,
                    hint: None,
                    owner_id: None,
                },
            ],
        })
    );
}

#[test]
fn listing_of_nothing_is_empty() {
    assert_eq!(
        view_caches_response(Ok(Vec::new())),
        Ok(CacheViewResponse(CacheView { caches: Vec::new() }))
    );
}

#[test]
fn listing_reports_a_store_failure() {
    let response = view_caches_response(Err("timeout".to_string()));
    assert_eq!(response, Err(CacheViewErrorResponse::DBError(db_error("timeout"))));
    assert_eq!(response.unwrap_err().status(), 500);
}

#[test]
fn incomplete_bounds_are_a_bad_request() {
    let response = CacheViewErrorResponse::from_error(CacheViewErrors::IncompleteBoundSpecification);
    assert_eq!(
        response,
        CacheViewErrorResponse::IncompleteBoundSpecification(ResponseError {
            message: "\u{41d}\u{435}\u{43e}\u{431}\u{445}\u{43e}\u{434}\u{438}\u{43c}\u{43e} \u{437}\u{430}\u{434}\u{430}\u{442}\u{44c} \u{432}\u{441}\u{435} \u{433}\u{440}\u{430}\u{43d}\u{438}\u{446}\u{44b} \u{43e}\u{431}\u{43b}\u{430}\u{441}\u{442}\u{438} \u{43f}\u{43e}\u{438}\u{441}\u{43a}\u{430}".to_string(),
        })
    );
    assert_eq!(response.status(), 400);
}

#[test]
fn fetch_parses_the_identifier() {
    assert_eq!(view_cache(HEX), Some(CacheId { bytes: BYTES }));
    assert_eq!(view_cache("not-an-id"), None);
    assert_eq!(view_cache(""), None);
}

#[test]
fn fetch_answers_with_the_whole_record() {
    let found = record(1, 10, 20, 7);
    let response = view_cache_response(Ok(Some(found.clone()))).unwrap();
    assert_eq!(response, CacheViewResponse(CacheView { caches: vec![found] }));
    assert_eq!(response.0.caches[0].owner_id, Some(7));
    assert_eq!(response.status(), 200);
}

#[test]
fn fetch_of_nothing_answers_nothing() {
    assert_eq!(view_cache_response(Ok(None)), None);
    assert_eq!(view_cache_response(Err("timeout".to_string())), None);
}

#[test]
fn edit_takes_the_identifier_of_the_path() {
    let body = record(9, 1, 2, 999);
    assert_eq!(
        edit_cache(HEX, body),
        Ok(CacheUpdate {
            id: CacheId { bytes: BYTES },
            position: LatLong { lat: 1, lng: 2 },
            description: Some("cache 9".to_string()),
            hint: Some("hint".to_string()),
        })
    );
}

#[test]
fn edit_of_a_body_without_identifier_is_accepted() {
    let mut body = record(9, 1, 2, 999);
    body.id = None;
    body.description = None;
    assert_eq!(
        edit_cache(HEX, body),
        Ok(CacheUpdate {
            id: CacheId { bytes: BYTES },
            position: LatLong { lat: 1, lng: 2 },
            description: None,
            hint: Some("hint".to_string()),
        })
    );
}

#[test]
fn edit_refuses_a_malformed_identifier() {
    assert_eq!(edit_cache("xyz", record(9, 1, 2, 999)), Err(CacheEditError::WrongObjectID));
    let response = CacheEditErrorResponse::from_error(CacheEditError::WrongObjectID);
    assert_eq!(
        response,
        CacheEditErrorResponse::WrongObjectID(ResponseError {
            message: "Wrong ObjectID format".to_string()
        })
    );
    assert_eq!(response.status(), 400);
}

#[test]
fn edit_never_changes_the_owner() {
    let stored = record(1, 10, 20, 7);
    let update = edit_cache(HEX, record(9, 1, 2, 999)).unwrap();
    let after = update.apply(stored);
    assert_eq!(after.owner_id, Some(7));
    assert_eq!(after.id, Some(CacheId { bytes: [1; 12] }));
    assert_eq!(after.position, LatLong { lat: 1, lng: 2 });
}

#[test]
fn edit_answers_empty_or_reports_the_store() {
    assert_eq!(edit_cache_response(Ok(())), Ok(CacheEditResponse));
    assert_eq!(CacheEditResponse::new().status(), 200);
    let response = edit_cache_response(Err("timeout".to_string()));
    assert_eq!(response, Err(CacheEditErrorResponse::DBError(db_error("timeout"))));
    assert_eq!(response.unwrap_err().status(), 500);
}

#[test]
fn delete_parses_the_identifier() {
    assert_eq!(delete_cache(HEX), Ok(CacheId { bytes: BYTES }));
    assert_eq!(delete_cache("507f1f77"), Err(DeleteResult::WrongObjectID));
}

#[test]
fn delete_responses_have_their_status() {
    let done = delete_cache_response(Ok(()));
    assert_eq!(done, DeleteResultResponse::Deleted);
    assert_eq!(done.status(), 200);
    let failed = delete_cache_response(Err("timeout".to_string()));
    assert_eq!(failed, DeleteResultResponse::DBError(db_error("timeout")));
    assert_eq!(failed.status(), 500);
    let wrong = DeleteResultResponse::from_result(DeleteResult::WrongObjectID);
    assert_eq!(
        wrong,
        DeleteResultResponse::WrongObjectID(ResponseError {
            message: "Wrong ObjectID format".to_string()
        })
    );
    assert_eq!(wrong.status(), 400);
}

/// A store in memory that does what the requests ask, for the scenario below.
struct Store {
    records: Vec<Cache>,
    next: u8,
}

impl Store {
    fn insert(&mut self, mut cache: Cache) -> CacheId {
        self.next += 1;
        let id = CacheId { bytes: [self.next; 12] };
        cache.id = Some(id);
        self.records.push(cache);
        id
    }

    fn get(&self, id: CacheId) -> Option<Cache> {
        self.records.iter().find(|c| c.id == Some(id)).cloned()
    }

    fn delete(&mut self, id: CacheId) {
        self.records.retain(|c| c.id != Some(id));
    }
}

#[test]
fn create_fetch_list_delete_fetch() {
    let mut store = Store { records: Vec::new(), next: 0 };
    let auth = AuthInfo::from_login(Some(7)).unwrap();

    let body = Cache {
        id: None,
        position: LatLong { lat: 10, lng: 20 },
        description: None,
        hint: None,
        owner_id: None,
    };
    let id = store.insert(create_cache(body, &auth));
    let added = create_cache_response(Ok(id)).unwrap();
    assert_eq!(added.status(), 201);
    let oid = added.id.clone();
    assert_eq!(oid, "010101010101010101010101");

    let wanted = view_cache(&oid).unwrap();
    let fetched = view_cache_response(Ok(store.get(wanted))).unwrap();
    assert_eq!(fetched.status(), 200);
    assert_eq!(fetched.0.caches.len(), 1);
    assert_eq!(fetched.0.caches[0].owner_id, Some(7));
    assert_eq!(fetched.0.caches[0].position, LatLong { lat: 10, lng: 20 });
    assert_eq!(fetched.0.caches[0].id, Some(id));

    let params = CacheViewParameters {
        user_id: None,
        min_lat: Some(0),
        max_lat: Some(15),
        min_long: Some(0),
        max_long: Some(25),
    };
    let filter = view_caches(&params).unwrap();
    let found: Vec<Cache> =
        store.records.iter().filter(|c| filter.matches(c)).cloned().collect();
    let listed = view_caches_response(Ok(found)).unwrap();
    assert!(listed.0.caches.iter().any(|c| c.id == Some(id)));
    assert!(listed
        .0
        .caches
        .iter()
        .all(|c| c.description.is_none() && c.hint.is_none() && c.owner_id.is_none()));

    let target = delete_cache(&oid).unwrap();
    store.delete(target);
    let deleted = delete_cache_response(Ok(()));
    assert_eq!(deleted, DeleteResultResponse::Deleted);
    assert_eq!(deleted.status(), 200);

    let again = view_cache(&oid).unwrap();
    assert_eq!(view_cache_response(Ok(store.get(again))), None);
}

#[test]
fn listing_store_failure_is_a_server_error() {
    let response =
        CacheViewErrorResponse::from_error(CacheViewErrors::DatabaseError("down".to_string()));
    assert_eq!(response, CacheViewErrorResponse::DBError(db_error("down")));
    assert_eq!(response.status(), 500);
}

#[test]
fn edit_store_failure_is_a_server_error() {
    let response = CacheEditErrorResponse::from_error(CacheEditError::DBError("down".to_string()));
    assert_eq!(response, CacheEditErrorResponse::DBError(db_error("down")));
    assert_eq!(response.status(), 500);
}

#[test]
fn edit_is_open_to_every_caller() {
    let stored = record(1, 10, 20, 7);
    let stranger = AuthInfo::from_login(Some(8)).unwrap();
    assert!(stored.owner_id != Some(stranger.user_id));
    assert!(edit_cache(HEX, record(1, 0, 0, 8)).is_ok());
    assert!(delete_cache(HEX).is_ok());
}

use item_service::{routes, Method, Route, PORT};

#[test]
fn table_lists_three_routes_in_order() {
    assert_eq!(routes(), vec![Route::Health, Route::Simple, Route::Complex]);
}

#[test]
fn paths_and_methods() {
    assert_eq!(Route::Health.path(), "/health");
    assert_eq!(Route::Health.method(), Method::Get);
    assert_eq!(Route::Simple.path(), "/simple");
    assert_eq!(Route::Simple.method(), Method::Get);
    assert_eq!(Route::Complex.path(), "/complex");
    assert_eq!(Route::Complex.method(), Method::Post);
}

#[test]
fn listens_on_8090() {
    assert_eq!(PORT, 8090);
}

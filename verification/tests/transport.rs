use mach_backend::{body_text, route, ClientError, Method, Route};

#[test]
fn get_below_static_is_an_asset() {
    assert_eq!(route(Method::Get, "/static/index.html"), Route::Asset);
    assert_eq!(route(Method::Get, "/static/js/app.js"), Route::Asset);
    assert_eq!(route(Method::Get, "/static"), Route::Asset);
    assert_eq!(route(Method::Get, "/static/"), Route::Asset);
}

#[test]
fn get_with_the_static_prefix_is_an_asset_whatever_follows() {
    assert_eq!(route(Method::Get, "/staticfiles"), Route::Asset);
    assert_eq!(route(Method::Get, "/static\u{e9}"), Route::Asset);
}

#[test]
fn get_of_the_root_is_the_front_page() {
    assert_eq!(route(Method::Get, "/"), Route::FrontPage);
}

#[test]
fn get_of_anything_else_is_not_found() {
    assert_eq!(route(Method::Get, ""), Route::NotFound);
    assert_eq!(route(Method::Get, "//"), Route::NotFound);
    assert_eq!(route(Method::Get, "/index.html"), Route::NotFound);
    assert_eq!(route(Method::Get, "/stati"), Route::NotFound);
    assert_eq!(route(Method::Get, "/Static/x"), Route::NotFound);
    assert_eq!(route(Method::Get, "static/x"), Route::NotFound);
    assert_eq!(route(Method::Get, "/game_call"), Route::NotFound);
    assert_eq!(route(Method::Get, "/\u{e9}"), Route::NotFound);
}

#[test]
fn post_to_game_call_is_a_game_call() {
    assert_eq!(route(Method::Post, "/game_call"), Route::GameCall);
}

#[test]
fn post_elsewhere_is_unsupported() {
    assert_eq!(route(Method::Post, "/"), Route::Unsupported);
    assert_eq!(route(Method::Post, ""), Route::Unsupported);
    assert_eq!(route(Method::Post, "/game_call/"), Route::Unsupported);
    assert_eq!(route(Method::Post, "/game_cal"), Route::Unsupported);
    assert_eq!(route(Method::Post, "/game_calls"), Route::Unsupported);
    assert_eq!(route(Method::Post, "/static/x"), Route::Unsupported);
    assert_eq!(route(Method::Post, "/Game_call"), Route::Unsupported);
}

#[test]
fn other_methods_are_unsupported() {
    assert_eq!(route(Method::Other, "/"), Route::Unsupported);
    assert_eq!(route(Method::Other, "/static/x"), Route::Unsupported);
    assert_eq!(route(Method::Other, "/game_call"), Route::Unsupported);
}

#[test]
fn body_that_is_text_is_read() {
    assert_eq!(body_text(b"{\"Register\":{\"name\":\"Alice\"}}"), Ok("{\"Register\":{\"name\":\"Alice\"}}"));
    assert_eq!(body_text(b""), Ok(""));
    assert_eq!(body_text("h\u{e9}llo \u{1f600}".as_bytes()), Ok("h\u{e9}llo \u{1f600}"));
}

#[test]
fn body_that_is_not_text_is_the_clients_mistake() {
    assert_eq!(body_text(&[0xff]), Err(ClientError::Stoopid));
    assert_eq!(body_text(&[b'a', 0x80]), Err(ClientError::Stoopid));
    // An encoding longer than needed, a surrogate, and a cut-off character.
    assert_eq!(body_text(&[0xc0, 0x80]), Err(ClientError::Stoopid));
    assert_eq!(body_text(&[0xed, 0xa0, 0x80]), Err(ClientError::Stoopid));
    assert_eq!(body_text(&[0xe2, 0x82]), Err(ClientError::Stoopid));
}

use panoptic::keyed::KeyedList;
use panoptic::models::AuthState;
use panoptic::server::{
    art_plan, art_plan_from, art_source, auth_callback, client_type, file_response, file_response_typed, proxy_response, AppRouter,
    ArtPlan, ArtQuery, HealthHandler, ProxyResult,
};

fn params(pairs: &[(&str, &str)]) -> KeyedList<String> {
    let mut p = KeyedList::new();
    for (k, v) in pairs {
        p.insert(k.to_string(), v.to_string());
    }
    p
}

#[test]
fn test_health_check() {
    assert_eq!(HealthHandler::check(), "OK");
}

#[test]
fn test_auth_callback_success() {
    let o = auth_callback("spotify", &params(&[("code", "test_auth_code_123")]));
    assert!(o.page.contains("Authentication Successful!"));
    assert!(o.page.contains("Panoptic is linking your spotify account"));
    assert!(matches!(
        o.auth,
        Some(AuthState::Authenticating { ref provider, ref code })
            if provider == "spotify" && code == "test_auth_code_123"
    ));
}

#[test]
fn test_auth_callback_implicit_success() {
    let o = auth_callback("twitch", &params(&[("access_token", "test_access_token_123")]));
    assert!(o.page.contains("Authentication Successful!"));
    assert!(o.page.contains("Panoptic is linking your twitch account"));
    assert!(matches!(
        o.auth,
        Some(AuthState::Authenticated { ref provider, ref access_token, ref refresh_token })
            if provider == "twitch" && access_token == "test_access_token_123" && refresh_token.is_empty()
    ));
}

#[test]
fn test_auth_callback_error() {
    let o = auth_callback("twitch", &params(&[("error", "access_denied")]));
    assert!(o.page.contains("Authentication failed for twitch: access_denied"));
    assert!(o.auth.is_none());
}

#[test]
fn test_auth_callback_missing_params() {
    let o = auth_callback("spotify", &params(&[]));
    assert!(o.page.contains("Connecting spotify..."));
    assert!(o.page.contains("Completing authentication"));
    assert!(o.auth.is_none());
}

#[test]
fn auth_callback_error_with_description_and_priority() {
    let o = auth_callback(
        "twitch",
        &params(&[("code", "c"), ("error", "denied"), ("error_description", "user said no")]),
    );
    assert!(o.page.contains("Authentication failed for twitch: denied (user said no)"));
    assert!(o.auth.is_none());
    let o = auth_callback("spotify", &params(&[("access_token", "t"), ("code", "c")]));
    assert!(matches!(o.auth, Some(AuthState::Authenticating { .. })));
}

#[test]
fn art_sources_and_plans() {
    let q = ArtQuery { v: Some("".to_string()), t: None };
    assert_eq!(art_source(&q, "https://a/b.png"), "https://a/b.png");
    let q = ArtQuery { v: Some("http://x/y.jpg".to_string()), t: Some("1".to_string()) };
    assert_eq!(art_source(&q, "https://a/b.png"), "http://x/y.jpg");
    assert!(matches!(art_plan(""), ArtPlan::NotFound));
    assert!(matches!(art_plan("https://i.scdn.co/image/abc"), ArtPlan::Proxy(ref s) if s == "https://i.scdn.co/image/abc"));
    assert!(matches!(art_plan("ftp://host/file"), ArtPlan::BadRequest));
    assert!(matches!(art_plan("not a url"), ArtPlan::BadRequest));
    assert!(matches!(art_plan("file:///tmp/panoptic_art.jpg"), ArtPlan::ReadFile(ref p) if p == "/tmp/panoptic_art.jpg"));
}

#[test]
fn art_responses() {
    let r = file_response("/tmp/a.png", true);
    assert_eq!(r.status, 200);
    assert_eq!(r.content_type.as_deref(), Some("image/png"));
    assert_eq!(file_response("/tmp/a.png", false).status, 404);
    assert_eq!(file_response("/tmp/a.png", false).content_type, None);
    let r = file_response_typed("image/jpeg".to_string(), true);
    assert_eq!((r.status, r.content_type.as_deref()), (200, Some("image/jpeg")));
    let r = file_response_typed("image/jpeg".to_string(), false);
    assert_eq!((r.status, r.content_type), (404, None));
    let r = proxy_response(ProxyResult::Fetched { content_type: None, body_ok: true });
    assert_eq!((r.status, r.content_type.as_deref()), (200, Some("application/octet-stream")));
    let r = proxy_response(ProxyResult::Fetched { content_type: Some("image/jpeg".into()), body_ok: true });
    assert_eq!(r.content_type.as_deref(), Some("image/jpeg"));
    assert_eq!(proxy_response(ProxyResult::Fetched { content_type: None, body_ok: false }).status, 502);
    assert_eq!(proxy_response(ProxyResult::Refused(404)).status, 502);
    assert_eq!(proxy_response(ProxyResult::NetworkError).status, 502);
}

#[test]
fn art_client_types() {
    assert_eq!(client_type("Mozilla/5.0 OBS/30.0", ""), "OBS Browser Source");
    assert_eq!(client_type("curl", "http://127.0.0.1:3000/overlay/now-playing"), "OBS Browser Source");
    assert_eq!(client_type("curl", "http://example.com/"), "Generic Client");
}

#[test]
fn router_lists_core_routes() {
    let r = AppRouter::routes();
    assert_eq!(r.len(), 9);
    assert_eq!(r[0], "/health");
    assert_eq!(r[8], "/overlay/:id/style.css");
}

#[test]
fn art_plan_from_the_parsed_url() {
    let some = |t: &str| Some(t.to_string());
    assert!(matches!(art_plan_from("", some("file"), some("/x")), ArtPlan::NotFound));
    assert!(matches!(
        art_plan_from("file:///tmp/a.jpg", some("file"), some("/tmp/a.jpg")),
        ArtPlan::ReadFile(ref p) if p == "/tmp/a.jpg"
    ));
    assert!(matches!(art_plan_from("file://host/a.jpg", some("file"), None), ArtPlan::BadRequest));
    assert!(matches!(
        art_plan_from("https://i.scdn.co/x", some("https"), None),
        ArtPlan::Proxy(ref u) if u == "https://i.scdn.co/x"
    ));
    assert!(matches!(art_plan_from("https://i.scdn.co/x", some("https"), some("/ignored")), ArtPlan::Proxy(_)));
    assert!(matches!(art_plan_from("ftp://h/x", some("ftp"), None), ArtPlan::BadRequest));
    assert!(matches!(art_plan_from("not a url", None, None), ArtPlan::BadRequest));
}

//! The JSON API surface: health, list, create, update, validation, and the
//! properties of generated identifiers and timestamps.

use spa_server::bundle::{Asset, AssetBundle, ContentType};
use spa_server::router::{Method, Request, Server};

fn ab(s: &str) -> Vec<u8> {
    s.as_bytes().to_vec()
}

fn api_server() -> Server {
    let entries = vec![Asset { path: ab("index.html"), data: ab("<html>entry</html>") }];
    let bundle = AssetBundle::new(entries, ab("index.html")).unwrap();
    Server::new(bundle, ab("Demo"))
}

fn parse(body: &[u8]) -> serde_json::Value {
    serde_json::from_slice(body).unwrap()
}

#[test]
fn health_reports_ok_and_a_valid_past_time() {
    let s = api_server();
    let r = s.respond(&Request { method: Method::Get, path: ab("/api/health"), text: None, done: None });
    assert_eq!(r.status, 200);
    assert_eq!(r.content_type, ContentType::Json);
    let v = parse(&r.body);
    assert_eq!(v.get("status").unwrap().as_str().unwrap(), "ok");
    assert_eq!(v.get("message").unwrap().as_str().unwrap(), "Rust + Axum backend is healthy!");
    assert_eq!(v.get("stack").unwrap().as_str().unwrap(), "Rust + Axum");
    let time = v.get("time").unwrap().as_str().unwrap();
    let parsed = chrono::DateTime::parse_from_rfc3339(time).unwrap();
    let now = chrono::Utc::now();
    assert!(parsed.with_timezone(&chrono::Utc) <= now + chrono::Duration::seconds(1));
}

#[test]
fn health_body_is_exact_for_a_given_time() {
    let s = api_server();
    let req = Request { method: Method::Get, path: ab("/api/health"), text: None, done: None };
    let r = s.handle(&req, 0, b"2024-01-01T00:00:00+00:00", b"x");
    assert_eq!(
        r.body,
        ab("{\"status\":\"ok\",\"message\":\"Rust + Axum backend is healthy!\",\"stack\":\"Rust + Axum\",\"time\":\"2024-01-01T00:00:00+00:00\"}")
    );
}

#[test]
fn todos_list_is_exact_for_a_given_clock() {
    let s = api_server();
    let req = Request { method: Method::Get, path: ab("/api/todos"), text: None, done: None };
    let r = s.handle(&req, 1700000000, b"t", b"x");
    assert_eq!(r.status, 200);
    assert_eq!(
        r.body,
        ab("[{\"id\":\"1\",\"text\":\"Welcome to Demo!\",\"done\":false,\"created\":1700000000}]")
    );
}

#[test]
fn todos_list_is_idempotent_without_writes() {
    let s = api_server();
    let req = Request { method: Method::Get, path: ab("/api/todos"), text: None, done: None };
    let r1 = s.handle(&req, 1700000000, b"t1", b"id1");
    let r2 = s.handle(&req, 1700000000, b"t2", b"id2");
    assert_eq!(r1.status, r2.status);
    assert_eq!(r1.content_type, r2.content_type);
    assert_eq!(r1.body, r2.body);
}

#[test]
fn create_todo_is_exact_for_given_id_and_clock() {
    let s = api_server();
    let req = Request {
        method: Method::Post,
        path: ab("/api/todos"),
        text: Some(ab("buy milk")),
        done: None,
    };
    let r = s.handle(&req, 42, b"t", b"abc");
    assert_eq!(r.status, 200);
    assert_eq!(r.body, ab("{\"id\":\"abc\",\"text\":\"buy milk\",\"done\":false,\"created\":42}"));
}

#[test]
fn create_todo_sets_done_false_and_a_recent_created() {
    let s = api_server();
    let req = Request {
        method: Method::Post,
        path: ab("/api/todos"),
        text: Some(ab("buy milk")),
        done: None,
    };
    let before = chrono::Utc::now().timestamp();
    let r = s.respond(&req);
    let after = chrono::Utc::now().timestamp();
    assert_eq!(r.status, 200);
    let v = parse(&r.body);
    assert_eq!(v.get("text").unwrap().as_str().unwrap(), "buy milk");
    assert_eq!(v.get("done").unwrap().as_bool().unwrap(), false);
    assert!(!v.get("id").unwrap().as_str().unwrap().is_empty());
    let created = v.get("created").unwrap().as_i64().unwrap();
    assert!(before <= created && created <= after);
}

#[test]
fn create_ids_are_nonempty_and_distinct() {
    let s = api_server();
    let req = Request {
        method: Method::Post,
        path: ab("/api/todos"),
        text: Some(ab("x")),
        done: None,
    };
    let r1 = s.respond(&req);
    let r2 = s.respond(&req);
    let id1 = parse(&r1.body).get("id").unwrap().as_str().unwrap().to_string();
    let id2 = parse(&r2.body).get("id").unwrap().as_str().unwrap().to_string();
    assert_eq!(id1.len(), 36);
    assert_eq!(id2.len(), 36);
    assert_ne!(id1, id2);
}

#[test]
fn create_without_text_is_rejected() {
    let s = api_server();
    let req = Request { method: Method::Post, path: ab("/api/todos"), text: None, done: None };
    let r = s.respond(&req);
    assert_eq!(r.status, 400);
    assert_eq!(r.body, ab("{\"error\":\"text is required\"}"));
}

#[test]
fn update_todo_is_exact() {
    let s = api_server();
    let req = Request {
        method: Method::Post,
        path: ab("/api/todos/abc123"),
        text: Some(ab("done item")),
        done: Some(true),
    };
    let r = s.handle(&req, 7, b"t", b"x");
    assert_eq!(r.status, 200);
    assert_eq!(r.body, ab("{\"id\":\"abc123\",\"text\":\"done item\",\"done\":true,\"created\":7}"));
}

#[test]
fn update_combines_path_id_with_body_fields() {
    let s = api_server();
    let req = Request {
        method: Method::Post,
        path: ab("/api/todos/abc123"),
        text: Some(ab("done item")),
        done: Some(true),
    };
    let r = s.respond(&req);
    assert_eq!(r.status, 200);
    let v = parse(&r.body);
    assert_eq!(v.get("id").unwrap().as_str().unwrap(), "abc123");
    assert_eq!(v.get("text").unwrap().as_str().unwrap(), "done item");
    assert_eq!(v.get("done").unwrap().as_bool().unwrap(), true);
    assert!(v.get("created").unwrap().as_i64().is_some());
}

#[test]
fn update_without_done_is_rejected() {
    let s = api_server();
    let req = Request {
        method: Method::Post,
        path: ab("/api/todos/abc123"),
        text: Some(ab("x")),
        done: None,
    };
    let r = s.respond(&req);
    assert_eq!(r.status, 400);
    assert_eq!(r.body, ab("{\"error\":\"text and done are required\"}"));
}

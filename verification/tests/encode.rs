//! The JSON emitter against a reference serializer: escaping, integer
//! rendering, record encoding, and the desktop-shell reports.

use spa_server::json::{enc_i64, escape_into};
use spa_server::shell::{app_info_json, greet, system_info_json, system_info_report};
use spa_server::todo::{todo_json, todos_json, Todo};

fn eb(s: &str) -> Vec<u8> {
    s.as_bytes().to_vec()
}

fn reference_escaped(s: &str) -> Vec<u8> {
    let quoted = serde_json::to_string(&serde_json::Value::String(s.to_string())).unwrap();
    let b = quoted.as_bytes();
    b[1..b.len() - 1].to_vec()
}

#[test]
fn escaping_matches_the_reference_serializer() {
    let cases = [
        "plain",
        "a\"quote",
        "back\\slash",
        "line\nbreak\ttab\rret",
        "ctrl\u{01}\u{08}\u{0b}\u{0c}\u{1f}end",
        "unicode héllo ✓",
        "",
    ];
    for s in cases {
        let mut ours: Vec<u8> = Vec::new();
        escape_into(&mut ours, s.as_bytes());
        assert_eq!(ours, reference_escaped(s), "case {:?}", s);
    }
}

#[test]
fn integers_render_exactly() {
    let cases: [(i64, &str); 7] = [
        (0, "0"),
        (7, "7"),
        (-1, "-1"),
        (1700000000, "1700000000"),
        (9223372036854775807, "9223372036854775807"),
        (i64::MIN, "-9223372036854775808"),
        (-42, "-42"),
    ];
    for (n, expect) in cases {
        assert_eq!(enc_i64(n), eb(expect), "case {}", n);
    }
}

#[test]
fn todo_record_renders_in_declared_field_order() {
    let t = Todo { id: eb("a\"b"), text: eb("x\ny"), done: true, created: -5 };
    assert_eq!(todo_json(&t), eb("{\"id\":\"a\\\"b\",\"text\":\"x\\ny\",\"done\":true,\"created\":-5}"));
}

#[test]
fn todo_list_renders_with_separators() {
    let ts = vec![
        Todo { id: eb("1"), text: eb("a"), done: false, created: 1 },
        Todo { id: eb("2"), text: eb("b"), done: true, created: 2 },
    ];
    assert_eq!(
        todos_json(&ts),
        eb("[{\"id\":\"1\",\"text\":\"a\",\"done\":false,\"created\":1},{\"id\":\"2\",\"text\":\"b\",\"done\":true,\"created\":2}]")
    );
    let none: Vec<Todo> = Vec::new();
    assert_eq!(todos_json(&none), eb("[]"));
}

#[test]
fn greeting_is_exact() {
    assert_eq!(greet("Alice"), "Hello, Alice! You've been greeted from Rust!");
}

#[test]
fn app_info_matches_the_reference_serializer() {
    let ours = app_info_json(b"My \"App\"", b"linux", b"x86_64");
    let mut m = serde_json::Map::new();
    m.insert("arch".to_string(), serde_json::Value::String("x86_64".to_string()));
    m.insert("name".to_string(), serde_json::Value::String("My \"App\"".to_string()));
    m.insert("platform".to_string(), serde_json::Value::String("linux".to_string()));
    m.insert("stack".to_string(), serde_json::Value::String("Tauri + React".to_string()));
    m.insert("version".to_string(), serde_json::Value::String("0.1.0".to_string()));
    let expect = serde_json::to_string(&serde_json::Value::Object(m)).unwrap();
    assert_eq!(ours, expect.as_bytes().to_vec());
}

#[test]
fn system_info_matches_the_reference_serializer() {
    let ours = system_info_json(b"linux", b"x86_64", b"unix", b"2024-01-01T00:00:00+00:00");
    let mut m = serde_json::Map::new();
    m.insert("arch".to_string(), serde_json::Value::String("x86_64".to_string()));
    m.insert("family".to_string(), serde_json::Value::String("unix".to_string()));
    m.insert("os".to_string(), serde_json::Value::String("linux".to_string()));
    m.insert(
        "time".to_string(),
        serde_json::Value::String("2024-01-01T00:00:00+00:00".to_string()),
    );
    let expect = serde_json::to_string(&serde_json::Value::Object(m)).unwrap();
    assert_eq!(ours, expect.as_bytes().to_vec());
}

#[test]
fn system_report_carries_a_parseable_time() {
    let r = system_info_report(b"linux", b"x86_64", b"unix");
    let v: serde_json::Value = serde_json::from_slice(&r).unwrap();
    let time = v.get("time").unwrap().as_str().unwrap();
    assert!(chrono::DateTime::parse_from_rfc3339(time).is_ok());
    assert_eq!(v.get("os").unwrap().as_str().unwrap(), "linux");
}

//! The request router: classifies each `(method, path, body)` into one of the
//! fixed API routes, a bundled asset, or the single-page-application
//! fallback, and builds the exact response bytes for it. The router holds no
//! state between requests; every decision is a function of the request, the
//! bundle, a clock reading and a fresh identifier.

use vstd::prelude::*;
use vstd::slice::slice_to_vec;
use vstd::string::is_ascii;

use crate::bundle::{content_type_of, lookup, AssetBundle, ContentType};
use crate::host::{fresh_id, now_rfc3339, now_timestamp};
use crate::json::{escape_into, escaped, push_lit};
use crate::text::{ascii, bytes_eq, contains_byte, lit_slice, norm_spec, normalize, starts_with,
    suffix_from};
use crate::todo::{seed_todos, todo_json, todo_json_spec, todos_json, todos_json_spec,
    welcome_text, Todo};

verus! {

/// The request methods the service distinguishes.
#[derive(Clone, Copy, PartialEq, Eq, Debug)]
pub enum Method {
    Get,
    Post,
    Other,
}

/// One incoming request, already reduced to plain values: the method, the
/// raw path, and the decoded fields of a JSON body — `text` is present iff
/// the body was a JSON object carrying a string under `"text"`, `done` iff
/// it carried a boolean under `"done"`.
pub struct Request {
    pub method: Method,
    pub path: Vec<u8>,
    pub text: Option<Vec<u8>>,
    pub done: Option<bool>,
}

/// One outgoing response: status code, content type and body bytes.
#[derive(Debug)]
pub struct Response {
    pub status: u16,
    pub content_type: ContentType,
    pub body: Vec<u8>,
}

/// How a request is classified, in the declared order of the route rules:
/// the API rules first, first match wins, everything else falls back to the
/// asset bundle.
pub enum Route {
    Health,
    ListTodos,
    CreateTodo,
    UpdateTodo(Seq<u8>),
    NotAllowed,
    Fallback,
}

/// The route for a method and a path. An API path with the wrong method is
/// answered 405 rather than falling through to the asset handling; a to-do
/// update needs exactly one non-empty id segment after `/api/todos/`.
pub open spec fn route_of(m: Method, p: Seq<u8>) -> Route {
    if p == ascii("/api/health") {
        if m == Method::Get {
            Route::Health
        } else {
            Route::NotAllowed
        }
    } else if p == ascii("/api/todos") {
        if m == Method::Get {
            Route::ListTodos
        } else if m == Method::Post {
            Route::CreateTodo
        } else {
            Route::NotAllowed
        }
    } else if ascii("/api/todos/").is_prefix_of(p) {
        if p.skip(11).len() > 0 && !p.skip(11).contains(47u8) {
            if m == Method::Post {
                Route::UpdateTodo(p.skip(11))
            } else {
                Route::NotAllowed
            }
        } else {
            Route::Fallback
        }
    } else {
        Route::Fallback
    }
}

/// The health report: a fixed status literal, message and stack label, and
/// the current UTC time.
pub open spec fn health_json_spec(time: Seq<u8>) -> Seq<u8> {
    ascii("{\"status\":\"ok\"") + ascii(
        ",\"message\":\"Rust + Axum backend is healthy!\",\"stack\":\"Rust + Axum\",\"time\":\"",
    ) + escaped(time) + ascii("\"}")
}

/// A machine-readable error body.
pub open spec fn error_json_spec(msg: Seq<u8>) -> Seq<u8> {
    ascii("{\"error\":\"") + escaped(msg) + ascii("\"}")
}

/// The body of the mock list: one welcome record with id "1".
pub open spec fn list_json_spec(project: Seq<u8>, now: int) -> Seq<u8> {
    ascii("[") + todo_json_spec(ascii("1"), welcome_text(project), false, now) + ascii("]")
}

/// What the fallback serves for a path: the entry document for the root path
/// and the entry file name, a bundled asset when one matches, and the entry
/// document again — never a 404 — for everything else.
pub open spec fn fallback_spec(b: AssetBundle, p: Seq<u8>) -> (ContentType, Seq<u8>) {
    let n = norm_spec(p);
    if n.len() == 0 || n == b.entry_name@ {
        (ContentType::Html, b.entry_doc@)
    } else {
        match lookup(b.entries@, n) {
            Some(d) => (content_type_of(n), d),
            None => (ContentType::Html, b.entry_doc@),
        }
    }
}

/// The full routing contract: what `handle` returns for a request, given the
/// clock reading `now`, its RFC 3339 rendering `time`, and a fresh `id`.
pub open spec fn handle_spec(
    s: Server,
    req: Request,
    now: int,
    time: Seq<u8>,
    id: Seq<u8>,
    r: Response,
) -> bool {
    match route_of(req.method, req.path@) {
        Route::Health => r.status == 200 && r.content_type == ContentType::Json && r.body@
            == health_json_spec(time),
        Route::ListTodos => r.status == 200 && r.content_type == ContentType::Json && r.body@
            == list_json_spec(s.project@, now),
        Route::CreateTodo => match req.text {
            Some(t) => r.status == 200 && r.content_type == ContentType::Json && r.body@
                == todo_json_spec(id, t@, false, now),
            None => r.status == 400 && r.content_type == ContentType::Json && r.body@
                == error_json_spec(ascii("text is required")),
        },
        Route::UpdateTodo(uid) => match (req.text, req.done) {
            (Some(t), Some(d)) => r.status == 200 && r.content_type == ContentType::Json && r.body@
                == todo_json_spec(uid, t@, d, now),
            _ => r.status == 400 && r.content_type == ContentType::Json && r.body@
                == error_json_spec(ascii("text and done are required")),
        },
        Route::NotAllowed => r.status == 405 && r.content_type == ContentType::Text && r.body@
            == Seq::<u8>::empty(),
        Route::Fallback => r.status == 200 && r.content_type == fallback_spec(
            s.bundle,
            req.path@,
        ).0 && r.body@ == fallback_spec(s.bundle, req.path@).1,
    }
}

/// The stateless server core: the asset bundle and the project name the mock
/// data mentions.
pub struct Server {
    pub bundle: AssetBundle,
    pub project: Vec<u8>,
}

proof fn reveal_route_lits()
    ensures
        is_ascii("/api/health"),
        is_ascii("/api/todos"),
        is_ascii("/api/todos/"),
        ascii("/api/todos/").len() == 11,
        is_ascii("{\"status\":\"ok\""),
        is_ascii(",\"message\":\"Rust + Axum backend is healthy!\",\"stack\":\"Rust + Axum\",\"time\":\""),
        is_ascii("\"}"),
        is_ascii("{\"error\":\""),
        is_ascii("text is required"),
        is_ascii("text and done are required"),
{
    reveal_strlit("/api/health");
    reveal_strlit("/api/todos");
    reveal_strlit("/api/todos/");
    reveal_strlit("{\"status\":\"ok\"");
    reveal_strlit(",\"message\":\"Rust + Axum backend is healthy!\",\"stack\":\"Rust + Axum\",\"time\":\"");
    reveal_strlit("\"}");
    reveal_strlit("{\"error\":\"");
    reveal_strlit("text is required");
    reveal_strlit("text and done are required");
}

/// The health body for a given time rendering.
pub fn health_body(time: &[u8]) -> (r: Vec<u8>)
    ensures
        r@ == health_json_spec(time@),
{
    proof {
        reveal_route_lits();
    }
    let mut out: Vec<u8> = Vec::new();
    push_lit(&mut out, "{\"status\":\"ok\"");
    push_lit(
        &mut out,
        ",\"message\":\"Rust + Axum backend is healthy!\",\"stack\":\"Rust + Axum\",\"time\":\"",
    );
    escape_into(&mut out, time);
    push_lit(&mut out, "\"}");
    proof {
        assert(out@ =~= health_json_spec(time@));
    }
    out
}

/// An error body for a fixed ASCII message.
fn error_body(msg: &str) -> (r: Vec<u8>)
    requires
        msg.is_ascii(),
    ensures
        r@ == error_json_spec(ascii(msg)),
{
    proof {
        reveal_route_lits();
    }
    let mut out: Vec<u8> = Vec::new();
    push_lit(&mut out, "{\"error\":\"");
    escape_into(&mut out, lit_slice(msg));
    push_lit(&mut out, "\"}");
    proof {
        assert(out@ =~= error_json_spec(ascii(msg)));
    }
    out
}

fn not_allowed() -> (r: Response)
    ensures
        r.status == 405,
        r.content_type == ContentType::Text,
        r.body@ == Seq::<u8>::empty(),
{
    Response { status: 405, content_type: ContentType::Text, body: Vec::new() }
}

impl Server {
    /// A server is well formed when its bundle is.
    pub open spec fn wf(&self) -> bool {
        self.bundle.wf()
    }

    /// Wraps a bundle and a project name.
    pub fn new(bundle: AssetBundle, project: Vec<u8>) -> (r: Server)
        requires
            bundle.wf(),
        ensures
            r.wf(),
            r.bundle == bundle,
            r.project == project,
    {
        Server { bundle, project }
    }

    /// Serves the fallback for a non-API path: entry document or bundled
    /// asset, always with status 200.
    fn serve_fallback(&self, path: &[u8]) -> (r: Response)
        requires
            self.wf(),
        ensures
            r.status == 200,
            r.content_type == fallback_spec(self.bundle, path@).0,
            r.body@ == fallback_spec(self.bundle, path@).1,
    {
        let n = normalize(path);
        if n.len() == 0 || bytes_eq(n.as_slice(), self.bundle.entry_name.as_slice()) {
            Response {
                status: 200,
                content_type: ContentType::Html,
                body: self.bundle.entry_document(),
            }
        } else {
            match self.bundle.get(n.as_slice()) {
                Some((data, ct)) => Response { status: 200, content_type: ct, body: data },
                None => Response {
                    status: 200,
                    content_type: ContentType::Html,
                    body: self.bundle.entry_document(),
                },
            }
        }
    }

    /// Routes one request, given the clock reading `now`, its RFC 3339
    /// rendering `time`, and a fresh identifier `id` for a created record.
    pub fn handle(&self, req: &Request, now: i64, time: &[u8], id: &[u8]) -> (r: Response)
        requires
            self.wf(),
        ensures
            handle_spec(*self, *req, now as int, time@, id@, r),
    {
        proof {
            reveal_route_lits();
        }
        let path = req.path.as_slice();
        if bytes_eq(path, lit_slice("/api/health")) {
            match req.method {
                Method::Get => Response {
                    status: 200,
                    content_type: ContentType::Json,
                    body: health_body(time),
                },
                _ => not_allowed(),
            }
        } else if bytes_eq(path, lit_slice("/api/todos")) {
            match req.method {
                Method::Get => {
                    let ts = seed_todos(self.project.as_slice(), now);
                    let body = todos_json(&ts);
                    proof {
                        assert(todos_json_spec(ts@) =~= list_json_spec(self.project@, now as int));
                    }
                    Response { status: 200, content_type: ContentType::Json, body }
                },
                Method::Post => match &req.text {
                    Some(t) => {
                        let todo = Todo {
                            id: slice_to_vec(id),
                            text: slice_to_vec(t.as_slice()),
                            done: false,
                            created: now,
                        };
                        let body = todo_json(&todo);
                        Response { status: 200, content_type: ContentType::Json, body }
                    },
                    None => Response {
                        status: 400,
                        content_type: ContentType::Json,
                        body: error_body("text is required"),
                    },
                },
                Method::Other => not_allowed(),
            }
        } else if starts_with(path, lit_slice("/api/todos/")) {
            let rest = suffix_from(path, 11);
            if rest.len() > 0 && !contains_byte(rest.as_slice(), 47) {
                match req.method {
                    Method::Post => match (&req.text, &req.done) {
                        (Some(t), Some(d)) => {
                            let todo = Todo {
                                id: rest,
                                text: slice_to_vec(t.as_slice()),
                                done: *d,
                                created: now,
                            };
                            let body = todo_json(&todo);
                            Response { status: 200, content_type: ContentType::Json, body }
                        },
                        _ => Response {
                            status: 400,
                            content_type: ContentType::Json,
                            body: error_body("text and done are required"),
                        },
                    },
                    _ => not_allowed(),
                }
            } else {
                self.serve_fallback(path)
            }
        } else {
            self.serve_fallback(path)
        }
    }

    /// Routes one request against the host clock and a freshly drawn
    /// identifier. Whatever the host returned, the response is the one
    /// `handle` gives for those values, and the identifier has 36 bytes.
    pub fn respond(&self, req: &Request) -> (r: Response)
        requires
            self.wf(),
        ensures
            exists|now: int, time: Seq<u8>, id: Seq<u8>|
                #[trigger] handle_spec(*self, *req, now, time, id, r) && id.len() == 36,
    {
        let now = now_timestamp();
        let time = now_rfc3339();
        let id = fresh_id();
        let r = self.handle(req, now, time.as_slice(), id.as_slice());
        proof {
            assert(handle_spec(*self, *req, now as int, time@, id@, r) && id@.len() == 36);
        }
        r
    }
}

/// The permissive cross-origin headers every response carries: wildcard
/// origin, methods and headers.
pub fn cors_headers() -> (r: Vec<(Vec<u8>, Vec<u8>)>)
    ensures
        r@.len() == 3,
        r@[0].0@ == ascii("access-control-allow-origin"),
        r@[1].0@ == ascii("access-control-allow-methods"),
        r@[2].0@ == ascii("access-control-allow-headers"),
        forall|i: int| 0 <= i < 3 ==> #[trigger] r@[i].1@ == ascii("*"),
{
    proof {
        reveal_strlit("access-control-allow-origin");
        reveal_strlit("access-control-allow-methods");
        reveal_strlit("access-control-allow-headers");
        reveal_strlit("*");
    }
    let mut r: Vec<(Vec<u8>, Vec<u8>)> = Vec::new();
    r.push((slice_to_vec(lit_slice("access-control-allow-origin")), slice_to_vec(lit_slice("*"))));
    r.push((slice_to_vec(lit_slice("access-control-allow-methods")), slice_to_vec(lit_slice("*"))));
    r.push((slice_to_vec(lit_slice("access-control-allow-headers")), slice_to_vec(lit_slice("*"))));
    r
}

/// SPA fallback law: a request that matches no API route and names no
/// bundled asset is answered with the entry document's bytes, with status
/// 200 — never a 404.
pub proof fn law_spa_fallback(
    s: Server,
    req: Request,
    now: int,
    time: Seq<u8>,
    id: Seq<u8>,
    r: Response,
)
    requires
        s.wf(),
        route_of(req.method, req.path@) is Fallback,
        lookup(s.bundle.entries@, norm_spec(req.path@)) is None,
        handle_spec(s, req, now, time, id, r),
    ensures
        r.status == 200,
        r.body@ == s.bundle.entry_doc@,
        r.content_type == ContentType::Html,
{
}

/// Entry-document canonicalization law: the root path and the entry file's
/// own path are answered byte-identically.
pub proof fn law_entry_canonical(
    s: Server,
    req1: Request,
    req2: Request,
    n1: int,
    t1: Seq<u8>,
    i1: Seq<u8>,
    r1: Response,
    n2: int,
    t2: Seq<u8>,
    i2: Seq<u8>,
    r2: Response,
)
    requires
        s.wf(),
        route_of(req1.method, req1.path@) is Fallback,
        route_of(req2.method, req2.path@) is Fallback,
        norm_spec(req1.path@).len() == 0,
        norm_spec(req2.path@) == s.bundle.entry_name@,
        handle_spec(s, req1, n1, t1, i1, r1),
        handle_spec(s, req2, n2, t2, i2, r2),
    ensures
        r1.body@ == r2.body@,
        r1.content_type == r2.content_type,
        r1.status == r2.status,
{
}

/// Read-only listing law: two list responses for the same clock reading are
/// identical, whatever time rendering or identifier the host produced.
pub proof fn law_list_read_only(
    s: Server,
    req: Request,
    now: int,
    t1: Seq<u8>,
    i1: Seq<u8>,
    r1: Response,
    t2: Seq<u8>,
    i2: Seq<u8>,
    r2: Response,
)
    requires
        route_of(req.method, req.path@) is ListTodos,
        handle_spec(s, req, now, t1, i1, r1),
        handle_spec(s, req, now, t2, i2, r2),
    ensures
        r1.status == r2.status,
        r1.content_type == r2.content_type,
        r1.body@ == r2.body@,
{
}

/// Health law: a health response always has status 200 and its body begins
/// with the literal `{"status":"ok"`.
pub proof fn law_health_status_ok(
    s: Server,
    req: Request,
    now: int,
    time: Seq<u8>,
    id: Seq<u8>,
    r: Response,
)
    requires
        route_of(req.method, req.path@) is Health,
        handle_spec(s, req, now, time, id, r),
    ensures
        r.status == 200,
        ascii("{\"status\":\"ok\"").is_prefix_of(r.body@),
{
    let pre = ascii("{\"status\":\"ok\"");
    assert(r.body@ == health_json_spec(time));
    assert(pre =~= r.body@.subrange(0, pre.len() as int));
}

} // verus!

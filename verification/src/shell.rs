//! The desktop host commands: synchronous request/response functions invoked
//! by a host UI shell, returning plain data with no shared state — a
//! greeting, an application report and a system report.

use vstd::prelude::*;
use vstd::string::{is_ascii, StringExecFns};

use crate::host::now_rfc3339;
use crate::json::{escape_into, escaped, push_lit};
use crate::text::ascii;

verus! {

/// The greeting returned for a name.
pub fn greet(name: &str) -> (r: String)
    ensures
        r@ == "Hello, "@ + name@ + "! You've been greeted from Rust!"@,
{
    let mut r = String::from_str("Hello, ");
    r.append(name);
    r.append("! You've been greeted from Rust!");
    r
}

/// The application report: fixed version and stack labels beside the project
/// name and the host platform, keys in canonical (sorted) order.
pub open spec fn app_info_spec(name: Seq<u8>, platform: Seq<u8>, arch: Seq<u8>) -> Seq<u8> {
    ascii("{\"arch\":\"") + escaped(arch) + ascii("\",\"name\":\"") + escaped(name) + ascii(
        "\",\"platform\":\"",
    ) + escaped(platform) + ascii("\",\"stack\":\"Tauri + React\",\"version\":\"0.1.0\"}")
}

/// The system report for a given time rendering, keys in canonical (sorted)
/// order.
pub open spec fn system_info_spec(
    os: Seq<u8>,
    arch: Seq<u8>,
    family: Seq<u8>,
    time: Seq<u8>,
) -> Seq<u8> {
    ascii("{\"arch\":\"") + escaped(arch) + ascii("\",\"family\":\"") + escaped(family) + ascii(
        "\",\"os\":\"",
    ) + escaped(os) + ascii("\",\"time\":\"") + escaped(time) + ascii("\"}")
}

proof fn reveal_shell_lits()
    ensures
        is_ascii("{\"arch\":\""),
        is_ascii("\",\"name\":\""),
        is_ascii("\",\"platform\":\""),
        is_ascii("\",\"stack\":\"Tauri + React\",\"version\":\"0.1.0\"}"),
        is_ascii("\",\"family\":\""),
        is_ascii("\",\"os\":\""),
        is_ascii("\",\"time\":\""),
        is_ascii("\"}"),
{
    reveal_strlit("{\"arch\":\"");
    reveal_strlit("\",\"name\":\"");
    reveal_strlit("\",\"platform\":\"");
    reveal_strlit("\",\"stack\":\"Tauri + React\",\"version\":\"0.1.0\"}");
    reveal_strlit("\",\"family\":\"");
    reveal_strlit("\",\"os\":\"");
    reveal_strlit("\",\"time\":\"");
    reveal_strlit("\"}");
}

/// The application report for a project name on a host platform.
pub fn app_info_json(name: &[u8], platform: &[u8], arch: &[u8]) -> (r: Vec<u8>)
    ensures
        r@ == app_info_spec(name@, platform@, arch@),
{
    proof {
        reveal_shell_lits();
    }
    let mut out: Vec<u8> = Vec::new();
    push_lit(&mut out, "{\"arch\":\"");
    escape_into(&mut out, arch);
    push_lit(&mut out, "\",\"name\":\"");
    escape_into(&mut out, name);
    push_lit(&mut out, "\",\"platform\":\"");
    escape_into(&mut out, platform);
    push_lit(&mut out, "\",\"stack\":\"Tauri + React\",\"version\":\"0.1.0\"}");
    proof {
        assert(out@ =~= app_info_spec(name@, platform@, arch@));
    }
    out
}

/// The system report for a host, at a given time rendering.
pub fn system_info_json(os: &[u8], arch: &[u8], family: &[u8], time: &[u8]) -> (r: Vec<u8>)
    ensures
        r@ == system_info_spec(os@, arch@, family@, time@),
{
    proof {
        reveal_shell_lits();
    }
    let mut out: Vec<u8> = Vec::new();
    push_lit(&mut out, "{\"arch\":\"");
    escape_into(&mut out, arch);
    push_lit(&mut out, "\",\"family\":\"");
    escape_into(&mut out, family);
    push_lit(&mut out, "\",\"os\":\"");
    escape_into(&mut out, os);
    push_lit(&mut out, "\",\"time\":\"");
    escape_into(&mut out, time);
    push_lit(&mut out, "\"}");
    proof {
        assert(out@ =~= system_info_spec(os@, arch@, family@, time@));
    }
    out
}

/// The system report against the host clock: whatever time the clock gave,
/// the report is the exact rendering for it.
pub fn system_info_report(os: &[u8], arch: &[u8], family: &[u8]) -> (r: Vec<u8>)
    ensures
        exists|time: Seq<u8>| r@ == #[trigger] system_info_spec(os@, arch@, family@, time),
{
    let time = now_rfc3339();
    let r = system_info_json(os, arch, family, time.as_slice());
    proof {
        assert(r@ == system_info_spec(os@, arch@, family@, time@));
    }
    r
}

} // verus!

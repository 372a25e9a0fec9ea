//! The to-do resource: its record type, the exact JSON shape of one record
//! and of a list of records, and the mock seed list the service answers with.

use vstd::prelude::*;
use vstd::slice::slice_to_vec;
use vstd::string::is_ascii;

use crate::json::{dec_int, enc_i64, escape_into, escaped, push_lit};
use crate::text::ascii;

verus! {

/// One to-do record. `id` and `text` are UTF-8 bytes; `created` is a
/// seconds-since-epoch timestamp.
pub struct Todo {
    pub id: Vec<u8>,
    pub text: Vec<u8>,
    pub done: bool,
    pub created: i64,
}

/// The JSON object for one record, field by field, in declared order.
pub open spec fn todo_json_spec(id: Seq<u8>, text: Seq<u8>, done: bool, created: int) -> Seq<u8> {
    ascii("{\"id\":\"") + escaped(id) + ascii("\",\"text\":\"") + escaped(text) + ascii(
        "\",\"done\":",
    ) + (if done {
        ascii("true")
    } else {
        ascii("false")
    }) + ascii(",\"created\":") + dec_int(created) + ascii("}")
}

/// The JSON object of a given record.
pub open spec fn todo_json_of(t: Todo) -> Seq<u8> {
    todo_json_spec(t.id@, t.text@, t.done, t.created as int)
}

/// The comma-separated JSON objects of a list of records.
pub open spec fn todos_inner(ts: Seq<Todo>) -> Seq<u8>
    decreases ts.len(),
{
    if ts.len() == 0 {
        Seq::empty()
    } else if ts.len() == 1 {
        todo_json_of(ts[0])
    } else {
        todo_json_of(ts[0]) + ascii(",") + todos_inner(ts.skip(1))
    }
}

/// The JSON array of a list of records.
pub open spec fn todos_json_spec(ts: Seq<Todo>) -> Seq<u8> {
    ascii("[") + todos_inner(ts) + ascii("]")
}

proof fn reveal_todo_lits()
    ensures
        is_ascii("{\"id\":\""),
        is_ascii("\",\"text\":\""),
        is_ascii("\",\"done\":"),
        is_ascii("true"),
        is_ascii("false"),
        is_ascii(",\"created\":"),
        is_ascii("}"),
        is_ascii("["),
        is_ascii("]"),
        is_ascii(","),
{
    reveal_strlit("{\"id\":\"");
    reveal_strlit("\",\"text\":\"");
    reveal_strlit("\",\"done\":");
    reveal_strlit("true");
    reveal_strlit("false");
    reveal_strlit(",\"created\":");
    reveal_strlit("}");
    reveal_strlit("[");
    reveal_strlit("]");
    reveal_strlit(",");
}

/// Appends the JSON object for `t` to `out`.
pub fn todo_json_into(out: &mut Vec<u8>, t: &Todo)
    ensures
        final(out)@ == old(out)@ + todo_json_of(*t),
{
    proof {
        reveal_todo_lits();
    }
    push_lit(out, "{\"id\":\"");
    escape_into(out, t.id.as_slice());
    push_lit(out, "\",\"text\":\"");
    escape_into(out, t.text.as_slice());
    push_lit(out, "\",\"done\":");
    if t.done {
        push_lit(out, "true");
    } else {
        push_lit(out, "false");
    }
    push_lit(out, ",\"created\":");
    let mut num = enc_i64(t.created);
    out.append(&mut num);
    push_lit(out, "}");
    proof {
        assert(out@ =~= old(out)@ + todo_json_of(*t));
    }
}

/// The JSON object for one record.
pub fn todo_json(t: &Todo) -> (r: Vec<u8>)
    ensures
        r@ == todo_json_of(*t),
{
    let mut out: Vec<u8> = Vec::new();
    todo_json_into(&mut out, t);
    out
}

proof fn lemma_todos_inner_snoc(ts: Seq<Todo>, t: Todo)
    requires
        ts.len() > 0,
    ensures
        todos_inner(ts.push(t)) == todos_inner(ts) + ascii(",") + todo_json_of(t),
    decreases ts.len(),
{
    assert(ts.push(t)[0] == ts[0]);
    assert(ts.push(t).skip(1) =~= ts.skip(1).push(t));
    if ts.len() == 1 {
        assert(ts.skip(1).push(t) =~= seq![t]);
        assert(todos_inner(seq![t]) == todo_json_of(t));
        assert(todos_inner(ts.push(t)) =~= todos_inner(ts) + ascii(",") + todo_json_of(t));
    } else {
        lemma_todos_inner_snoc(ts.skip(1), t);
        assert(todos_inner(ts.push(t)) =~= todos_inner(ts) + ascii(",") + todo_json_of(t));
    }
}

/// The JSON array for a list of records.
pub fn todos_json(ts: &Vec<Todo>) -> (r: Vec<u8>)
    ensures
        r@ == todos_json_spec(ts@),
{
    proof {
        reveal_todo_lits();
    }
    let mut out: Vec<u8> = Vec::new();
    push_lit(&mut out, "[");
    let mut i: usize = 0;
    proof {
        assert(todos_inner(ts@.take(0)) =~= Seq::<u8>::empty());
        assert(out@ =~= ascii("[") + todos_inner(ts@.take(0)));
    }
    while i < ts.len()
        invariant
            i <= ts.len(),
            out@ == ascii("[") + todos_inner(ts@.take(i as int)),
        decreases ts.len() - i,
    {
        proof {
            reveal_todo_lits();
        }
        if i > 0 {
            push_lit(&mut out, ",");
        }
        todo_json_into(&mut out, &ts[i]);
        proof {
            if i == 0 {
                assert(ts@.take(1) =~= seq![ts@[0]]);
                assert(todos_inner(ts@.take(1)) == todo_json_of(ts@[0]));
            } else {
                lemma_todos_inner_snoc(ts@.take(i as int), ts@[i as int]);
                assert(ts@.take(i as int).push(ts@[i as int]) =~= ts@.take(i + 1 as int));
            }
            assert(out@ =~= ascii("[") + todos_inner(ts@.take(i + 1 as int)));
        }
        i = i + 1;
    }
    push_lit(&mut out, "]");
    proof {
        assert(ts@.take(ts@.len() as int) =~= ts@);
        assert(out@ =~= todos_json_spec(ts@));
    }
    out
}

/// The text of the seed record: a welcome line naming the project.
pub open spec fn welcome_text(project: Seq<u8>) -> Seq<u8> {
    ascii("Welcome to ") + project + ascii("!")
}

/// The mock seed list: one welcome record with id "1", not done, created at
/// the given clock reading.
pub fn seed_todos(project: &[u8], now: i64) -> (r: Vec<Todo>)
    ensures
        r@.len() == 1,
        r@[0].id@ == ascii("1"),
        r@[0].text@ == welcome_text(project@),
        r@[0].done == false,
        r@[0].created == now,
{
    proof {
        reveal_strlit("1");
        reveal_strlit("Welcome to ");
        reveal_strlit("!");
    }
    let mut text: Vec<u8> = Vec::new();
    push_lit(&mut text, "Welcome to ");
    let mut proj = slice_to_vec(project);
    text.append(&mut proj);
    push_lit(&mut text, "!");
    let id = slice_to_vec(crate::text::lit_slice("1"));
    let t = Todo { id, text, done: false, created: now };
    let mut r: Vec<Todo> = Vec::new();
    r.push(t);
    r
}

} // verus!

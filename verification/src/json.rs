//! A small JSON document tree and a verified renderer for it.
//!
//! The service publishes its API description as a JSON document; the
//! tree below holds that document and `to_json_string` renders it. The
//! renderer's output is pinned, character for character, by the spec
//! functions `emit_of`, `emit_items` and `emit_entries`.

use vstd::prelude::*;
use crate::text::{dec_of, decimal_of, hex_char, hex_str};

verus! {

/// A JSON value: a string, an unsigned number, an array, or an object
/// whose members keep their insertion order.
pub enum JsonValue {
    Str(String),
    UInt(u64),
    Arr(Vec<JsonValue>),
    Obj(Vec<(String, JsonValue)>),
}

/// How one character is written inside a JSON string literal.
pub open spec fn esc_char(c: char) -> Seq<char> {
    if c == '"' {
        seq!['\\', '"']
    } else if c == '\\' {
        seq!['\\', '\\']
    } else if c == '\n' {
        seq!['\\', 'n']
    } else if c == '\r' {
        seq!['\\', 'r']
    } else if c == '\t' {
        seq!['\\', 't']
    } else if (c as u32) < 0x20 {
        seq!['\\', 'u', '0', '0', hex_char((c as u32 / 16) as nat), hex_char((c as u32 % 16) as nat)]
    } else {
        seq![c]
    }
}

/// How a whole string is written inside a JSON string literal.
pub open spec fn esc(s: Seq<char>) -> Seq<char>
    decreases s.len(),
{
    if s.len() == 0 {
        Seq::empty()
    } else {
        esc(s.drop_last()) + esc_char(s.last())
    }
}

/// The rendering of a JSON value.
pub open spec fn emit_of(v: JsonValue) -> Seq<char>
    decreases v,
{
    match v {
        JsonValue::Str(s) => seq!['"'] + esc(s@) + seq!['"'],
        JsonValue::UInt(n) => dec_of(n as nat),
        JsonValue::Arr(items) => seq!['['] + emit_items(items@) + seq![']'],
        JsonValue::Obj(entries) => seq!['{'] + emit_entries(entries@) + seq!['}'],
    }
}

/// The comma-separated rendering of array elements.
pub open spec fn emit_items(items: Seq<JsonValue>) -> Seq<char>
    decreases items,
{
    if items.len() == 0 {
        Seq::empty()
    } else if items.len() == 1 {
        emit_of(items[0])
    } else {
        emit_items(items.subrange(0, items.len() - 1)) + seq![','] + emit_of(
            items[items.len() - 1],
        )
    }
}

/// The rendering of one object member.
pub open spec fn emit_entry(e: (String, JsonValue)) -> Seq<char>
    decreases e,
{
    seq!['"'] + esc(e.0@) + seq!['"', ':'] + emit_of(e.1)
}

/// The comma-separated rendering of object members.
pub open spec fn emit_entries(entries: Seq<(String, JsonValue)>) -> Seq<char>
    decreases entries,
{
    if entries.len() == 0 {
        Seq::empty()
    } else if entries.len() == 1 {
        emit_entry(entries[0])
    } else {
        emit_entries(entries.subrange(0, entries.len() - 1)) + seq![','] + emit_entry(
            entries[entries.len() - 1],
        )
    }
}

/// The member a key names in an object's member list: the first match.
pub open spec fn obj_get(entries: Seq<(String, JsonValue)>, key: Seq<char>) -> Option<JsonValue>
    decreases entries.len(),
{
    if entries.len() == 0 {
        None
    } else if entries[0].0@ == key {
        Some(entries[0].1)
    } else {
        obj_get(entries.subrange(1, entries.len() as int), key)
    }
}

/// The value a key names in a JSON object, if the value is an object
/// and has the key.
pub open spec fn get(v: JsonValue, key: Seq<char>) -> Option<JsonValue> {
    match v {
        JsonValue::Obj(entries) => obj_get(entries@, key),
        _ => None,
    }
}

/// The keys of a JSON object, in order.
pub open spec fn obj_keys(v: JsonValue) -> Seq<Seq<char>> {
    match v {
        JsonValue::Obj(entries) => entries@.map_values(|e: (String, JsonValue)| e.0@),
        _ => Seq::empty(),
    }
}

/// What a key names in a member list is the entry at the first
/// position whose key matches.
pub proof fn lemma_obj_get_at(entries: Seq<(String, JsonValue)>, key: Seq<char>, k: int)
    requires
        0 <= k < entries.len(),
        entries[k].0@ == key,
        forall|j: int| 0 <= j < k ==> entries[j].0@ != key,
    ensures
        obj_get(entries, key) == Some(entries[k].1),
    decreases k,
{
    if k == 0 {
    } else {
        let rest = entries.subrange(1, entries.len() as int);
        assert(rest[k - 1] == entries[k]);
        assert(forall|j: int| 0 <= j < k - 1 ==> rest[j] == entries[j + 1]);
        lemma_obj_get_at(rest, key, k - 1);
    }
}

/// Relies on String::push: appends exactly the given character.
#[verifier::external_body]
fn push_char(out: &mut String, c: char)
    ensures
        final(out)@ == old(out)@.push(c),
{
    out.push(c);
}

/// Appends `s` to `out` in JSON string-literal notation.
fn escape_into(out: &mut String, s: &str)
    ensures
        final(out)@ == old(out)@ + esc(s@),
{
    let len = s.unicode_len();
    let ghost base = out@;
    let mut i: usize = 0;
    while i < len
        invariant
            i <= len,
            len == s@.len(),
            out@ == base + esc(s@.take(i as int)),
        decreases len - i,
    {
        let c = s.get_char(i);
        if c == '"' {
            out.append("\\\"");
            proof {
                reveal_strlit("\\\"");
            }
        } else if c == '\\' {
            out.append("\\\\");
            proof {
                reveal_strlit("\\\\");
            }
        } else if c == '\n' {
            out.append("\\n");
            proof {
                reveal_strlit("\\n");
            }
        } else if c == '\r' {
            out.append("\\r");
            proof {
                reveal_strlit("\\r");
            }
        } else if c == '\t' {
            out.append("\\t");
            proof {
                reveal_strlit("\\t");
            }
        } else if (c as u32) < 0x20 {
            let code = c as u32;
            out.append("\\u00");
            out.append(hex_str(code / 16));
            out.append(hex_str(code % 16));
            proof {
                reveal_strlit("\\u00");
            }
        } else {
            push_char(out, c);
        }
        proof {
            assert(s@.take(i + 1).drop_last() =~= s@.take(i as int));
            assert(s@.take(i + 1).last() == s@[i as int]);
            assert(out@ =~= base + esc(s@.take(i + 1)));
        }
        i += 1;
    }
    proof {
        assert(s@.take(len as int) =~= s@);
    }
}

/// Appends the rendering of `v` to `out`.
#[verifier::loop_isolation(false)]
pub fn append_json(out: &mut String, v: &JsonValue)
    ensures
        final(out)@ == old(out)@ + emit_of(*v),
    decreases *v,
{
    match v {
        JsonValue::Str(s) => {
            out.append("\"");
            escape_into(out, s.as_str());
            out.append("\"");
            proof {
                reveal_strlit("\"");
                assert(out@ =~= old(out)@ + emit_of(*v));
            }
        },
        JsonValue::UInt(n) => {
            let d = decimal_of(*n);
            out.append(d.as_str());
        },
        JsonValue::Arr(items) => {
            out.append("[");
            let ghost base = out@;
            let n = items.len();
            let mut i: usize = 0;
            while i < n
                invariant
                    i <= n,
                    out@ == base + emit_items(items@.take(i as int)),
                decreases n - i,
            {
                if i > 0 {
                    out.append(",");
                }
                append_json(out, &items[i]);
                proof {
                    reveal_strlit(",");
                    assert(items@.take(i + 1).subrange(0, i as int) =~= items@.take(i as int));
                    assert(out@ =~= base + emit_items(items@.take(i + 1)));
                }
                i += 1;
            }
            out.append("]");
            proof {
                reveal_strlit("[");
                reveal_strlit("]");
                assert(items@.take(n as int) =~= items@);
                assert(out@ =~= old(out)@ + emit_of(*v));
            }
        },
        JsonValue::Obj(entries) => {
            out.append("{");
            let ghost base = out@;
            let n = entries.len();
            let mut i: usize = 0;
            while i < n
                invariant
                    i <= n,
                    out@ == base + emit_entries(entries@.take(i as int)),
                decreases n - i,
            {
                if i > 0 {
                    out.append(",");
                }
                out.append("\"");
                escape_into(out, entries[i].0.as_str());
                out.append("\":");
                append_json(out, &entries[i].1);
                proof {
                    reveal_strlit(",");
                    reveal_strlit("\"");
                    reveal_strlit("\":");
                    assert(entries@.take(i + 1).subrange(0, i as int) =~= entries@.take(i as int));
                    assert(emit_entry(entries@[i as int]) == seq!['"'] + esc(entries@[i as int].0@)
                        + seq!['"', ':'] + emit_of(entries@[i as int].1));
                    assert(out@ =~= base + emit_entries(entries@.take(i + 1)));
                }
                i += 1;
            }
            out.append("}");
            proof {
                reveal_strlit("{");
                reveal_strlit("}");
                assert(entries@.take(n as int) =~= entries@);
                assert(out@ =~= old(out)@ + emit_of(*v));
            }
        },
    }
}

/// Renders a JSON value as text.
pub fn to_json_string(v: &JsonValue) -> (r: String)
    ensures
        r@ == emit_of(*v),
{
    let mut out = String::new();
    append_json(&mut out, v);
    out
}

} // verus!

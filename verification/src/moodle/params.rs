//! Moodle's REST form encoding: nested parameters flattened into
//! `name[index]` and `name[key]` fields.

use vstd::prelude::*;

use crate::text::{self, int_decimal, nat_decimal};

verus! {

/// A request parameter: the JSON values the tool sends to Moodle. An
/// object's members are kept as a `serde_json` map keeps them, one per key
/// in key order, where it is built with `object`.
#[derive(Debug)]
pub enum ParamValue {
    Null,
    Bool(bool),
    Number(i64),
    Text(String),
    Array(Vec<ParamValue>),
    Object(Vec<(String, ParamValue)>),
}

/// The form fields of a value under `prefix`: arrays index their items,
/// objects name their members, null gives nothing, booleans are `1` or `0`.
pub open spec fn flatten_spec(prefix: Seq<char>, v: ParamValue) -> Seq<(Seq<char>, Seq<char>)>
    decreases v, 0int,
{
    match v {
        ParamValue::Null => Seq::empty(),
        ParamValue::Bool(b) => seq![(prefix, if b {
            "1"@
        } else {
            "0"@
        })],
        ParamValue::Number(n) => seq![(prefix, int_decimal(n as int))],
        ParamValue::Text(s) => seq![(prefix, s@)],
        ParamValue::Array(items) => flatten_items(prefix, items@, items@.len() as int),
        ParamValue::Object(members) => flatten_members(prefix, members@, members@.len() as int),
    }
}

/// The fields of the first `n` items of an array under `prefix`.
pub open spec fn flatten_items(prefix: Seq<char>, items: Seq<ParamValue>, n: int) -> Seq<
    (Seq<char>, Seq<char>),
>
    decreases items, n,
{
    if n <= 0 || n > items.len() {
        Seq::empty()
    } else {
        flatten_items(prefix, items, n - 1) + flatten_spec(
            prefix + "["@ + nat_decimal((n - 1) as nat) + "]"@,
            items[n - 1],
        )
    }
}

/// The fields of the first `n` members of an object under `prefix`.
pub open spec fn flatten_members(prefix: Seq<char>, members: Seq<(String, ParamValue)>, n: int) -> Seq<
    (Seq<char>, Seq<char>),
>
    decreases members, n,
{
    if n <= 0 || n > members.len() {
        Seq::empty()
    } else {
        flatten_members(prefix, members, n - 1) + flatten_spec(
            prefix + "["@ + members[n - 1].0@ + "]"@,
            members[n - 1].1,
        )
    }
}

/// The fields of a parameter object: each member flattened under its name.
/// Anything but an object gives no fields.
pub open spec fn flatten_params_spec(v: ParamValue) -> Seq<(Seq<char>, Seq<char>)> {
    match v {
        ParamValue::Object(members) => flatten_top(members@, members@.len() as int),
        _ => Seq::empty(),
    }
}

pub open spec fn flatten_top(members: Seq<(String, ParamValue)>, n: int) -> Seq<(Seq<char>, Seq<char>)>
    decreases n,
{
    if n <= 0 || n > members.len() {
        Seq::empty()
    } else {
        flatten_top(members, n - 1) + flatten_spec(members[n - 1].0@, members[n - 1].1)
    }
}

/// A field as plain values.
pub open spec fn field_view(f: (String, String)) -> (Seq<char>, Seq<char>) {
    (f.0@, f.1@)
}

pub open spec fn fields_view(fs: Seq<(String, String)>) -> Seq<(Seq<char>, Seq<char>)> {
    fs.map_values(|f: (String, String)| field_view(f))
}

fn push_field(out: &mut Vec<(String, String)>, name: String, value: String)
    ensures
        fields_view(final(out)@) == fields_view(old(out)@).push((name@, value@)),
{
    out.push((name, value));
    assert(fields_view(out@) =~= fields_view(old(out)@).push((name@, value@)));
}

fn flatten_into(prefix: &str, v: &ParamValue, out: &mut Vec<(String, String)>)
    ensures
        fields_view(final(out)@) == fields_view(old(out)@) + flatten_spec(prefix@, *v),
    decreases v,
{
    match v {
        ParamValue::Null => {
            assert(fields_view(out@) + flatten_spec(prefix@, *v) =~= fields_view(out@));
        },
        ParamValue::Bool(b) => {
            let value = if *b {
                text::owned("1")
            } else {
                text::owned("0")
            };
            push_field(out, text::owned(prefix), value);
        },
        ParamValue::Number(n) => {
            push_field(out, text::owned(prefix), text::i64_decimal(*n));
        },
        ParamValue::Text(s) => {
            push_field(out, text::owned(prefix), s.clone());
        },
        ParamValue::Array(items) => {
            let ghost start = fields_view(out@);
            let n = items.len();
            for i in 0..n
                invariant
                    n == items@.len(),
                    *v is Array,
                    v->Array_0 == *items,
                    fields_view(out@) == start + flatten_items(prefix@, items@, i as int),
            {
                let name = text::concat3(prefix, "[", text::usize_decimal(i).as_str());
                let name = text::concat2(name.as_str(), "]");
                proof {
                    assert(decreases_to!(items@ => items@[i as int]));
                    assert(decreases_to!(*items => items@));
                    assert(*items == v->Array_0);
                    assert(decreases_to!(*v => v->Array_0));
                }
                flatten_into(name.as_str(), &items[i], out);
                assert(start + flatten_items(prefix@, items@, i + 1) =~= start + flatten_items(
                    prefix@,
                    items@,
                    i as int,
                ) + flatten_spec(name@, items@[i as int]));
            }
        },
        ParamValue::Object(members) => {
            let ghost start = fields_view(out@);
            let n = members.len();
            for i in 0..n
                invariant
                    n == members@.len(),
                    *v is Object,
                    v->Object_0 == *members,
                    fields_view(out@) == start + flatten_members(prefix@, members@, i as int),
            {
                let (key, item) = &members[i];
                let name = text::concat3(prefix, "[", key.as_str());
                let name = text::concat2(name.as_str(), "]");
                proof {
                    assert(decreases_to!(members@[i as int] => members@[i as int].1));
                    assert(decreases_to!(members@ => members@[i as int]));
                    assert(decreases_to!(*members => members@));
                    assert(*members == v->Object_0);
                    assert(decreases_to!(*v => v->Object_0));
                }
                flatten_into(name.as_str(), item, out);
                assert(start + flatten_members(prefix@, members@, i + 1) =~= start
                    + flatten_members(prefix@, members@, i as int) + flatten_spec(
                    name@,
                    members@[i as int].1,
                ));
            }
        },
    }
}

/// The form fields of a parameter object, in member order.
pub fn flatten_params(value: &ParamValue) -> (r: Vec<(String, String)>)
    ensures
        fields_view(r@) == flatten_params_spec(*value),
{
    let mut out: Vec<(String, String)> = Vec::new();
    match value {
        ParamValue::Object(members) => {
            let n = members.len();
            assert(fields_view(out@) =~= Seq::<(Seq<char>, Seq<char>)>::empty());
            for i in 0..n
                invariant
                    n == members@.len(),
                    fields_view(out@) == flatten_top(members@, i as int),
            {
                let (key, item) = &members[i];
                flatten_into(key.as_str(), item, &mut out);
            }
        },
        _ => {
            assert(fields_view(out@) =~= Seq::<(Seq<char>, Seq<char>)>::empty());
        },
    }
    out
}

/// The members of an object as a map: a later member replaces an earlier
/// one of the same key.
pub open spec fn members_map(members: Seq<(String, ParamValue)>) -> Map<Seq<char>, ParamValue>
    decreases members.len(),
{
    if members.len() == 0 {
        Map::empty()
    } else {
        members_map(members.drop_last()).insert(members.last().0@, members.last().1)
    }
}

/// Whether the keys of `ms` rise strictly.
pub open spec fn keys_ascending(ms: Seq<(String, ParamValue)>) -> bool {
    forall|i: int, j: int| 0 <= i < j < ms.len() ==> text::seq_lt(#[trigger] ms[i].0@, #[trigger] ms[j].0@)
}

/// Whether `ms` holds exactly the map `m`, one member per key.
pub open spec fn holds_map(ms: Seq<(String, ParamValue)>, m: Map<Seq<char>, ParamValue>) -> bool {
    &&& forall|k: Seq<char>| #[trigger] m.dom().contains(k) <==> exists|i: int|
        0 <= i < ms.len() && (#[trigger] ms[i]).0@ == k
    &&& forall|i: int| 0 <= i < ms.len() ==> m[(#[trigger] ms[i]).0@] == ms[i].1
}

/// A JSON object of parameters as a `serde_json` map holds it: one member
/// per key, the last one given for a key winning, in ascending key order.
pub fn object(members: Vec<(String, ParamValue)>) -> (r: ParamValue)
    ensures
        r matches ParamValue::Object(ms) && keys_ascending(ms@) && holds_map(ms@, members_map(members@)),
{
    let ghost orig = members@;
    let mut rest = members;
    let mut out: Vec<(String, ParamValue)> = Vec::new();
    let ghost mut done: int = 0;
    assert(orig.take(0) =~= Seq::<(String, ParamValue)>::empty());
    while rest.len() > 0
        invariant
            0 <= done <= orig.len(),
            rest@ == orig.skip(done),
            keys_ascending(out@),
            holds_map(out@, members_map(orig.take(done))),
        decreases rest.len(),
    {
        let (k, v) = rest.remove(0);
        proof {
            assert(orig[done] == (k, v));
            assert(orig.take(done + 1).drop_last() =~= orig.take(done));
            assert(orig.take(done + 1).last() == (k, v));
        }
        let ghost m0 = members_map(orig.take(done));
        let ghost m1 = m0.insert(k@, v);
        let n = out.len();
        let mut pos: usize = 0;
        while pos < n && text::str_lt(out[pos].0.as_str(), k.as_str())
            invariant
                n == out@.len(),
                pos <= n,
                forall|j: int| 0 <= j < pos ==> text::seq_lt(#[trigger] out@[j].0@, k@),
            decreases n - pos,
        {
            pos = pos + 1;
        }
        let ghost before = out@;
        if pos < n && text::str_eq(out[pos].0.as_str(), k.as_str()) {
            out.set(pos, (k, v));
            proof {
                assert forall|i: int, j: int| 0 <= i < j < out@.len() implies text::seq_lt(
                    #[trigger] out@[i].0@,
                    #[trigger] out@[j].0@,
                ) by {
                    assert(out@[i].0@ == before[i].0@ && out@[j].0@ == before[j].0@);
                }
                assert forall|key: Seq<char>| #[trigger] m1.dom().contains(key) <==> exists|i: int|
                    0 <= i < out@.len() && (#[trigger] out@[i]).0@ == key by {
                    if m1.dom().contains(key) && key != k@ {
                        let i = choose|i: int| 0 <= i < before.len() && (#[trigger] before[i]).0@ == key;
                        assert(out@[i].0@ == key);
                    }
                    if m1.dom().contains(key) && key == k@ {
                        assert(out@[pos as int].0@ == key);
                    }
                    if exists|i: int| 0 <= i < out@.len() && (#[trigger] out@[i]).0@ == key {
                        let i = choose|i: int| 0 <= i < out@.len() && (#[trigger] out@[i]).0@ == key;
                        assert(before[i].0@ == key);
                    }
                }
                assert forall|i: int| 0 <= i < out@.len() implies m1[(#[trigger] out@[i]).0@] == out@[i].1 by {
                    if i != pos {
                        assert(out@[i] == before[i]);
                        if before[i].0@ == k@ {
                            text::lemma_seq_lt_irreflexive(k@);
                            if i < pos {
                            } else {
                                assert(text::seq_lt(before[pos as int].0@, before[i].0@));
                            }
                        }
                    }
                }
            }
        } else {
            proof {
                if pos < n {
                    text::lemma_seq_lt_trichotomy(out@[pos as int].0@, k@);
                }
            }
            out.insert(pos, (k, v));
            proof {
                assert forall|i: int, j: int| 0 <= i < j < out@.len() implies text::seq_lt(
                    #[trigger] out@[i].0@,
                    #[trigger] out@[j].0@,
                ) by {
                    if j < pos {
                        assert(out@[i] == before[i] && out@[j] == before[j]);
                    } else if j == pos {
                        assert(out@[i] == before[i]);
                    } else if i < pos {
                        assert(out@[i] == before[i] && out@[j] == before[j - 1]);
                        if j - 1 > pos {
                            text::lemma_seq_lt_transitive(before[i].0@, k@, before[pos as int].0@);
                            text::lemma_seq_lt_transitive(before[i].0@, before[pos as int].0@, before[j - 1].0@);
                        } else {
                            text::lemma_seq_lt_transitive(before[i].0@, k@, before[j - 1].0@);
                        }
                    } else if i == pos {
                        assert(out@[j] == before[j - 1]);
                        if j - 1 > pos {
                            text::lemma_seq_lt_transitive(k@, before[pos as int].0@, before[j - 1].0@);
                        }
                    } else {
                        assert(out@[i] == before[i - 1] && out@[j] == before[j - 1]);
                    }
                }
                assert forall|key: Seq<char>| #[trigger] m1.dom().contains(key) <==> exists|i: int|
                    0 <= i < out@.len() && (#[trigger] out@[i]).0@ == key by {
                    if m1.dom().contains(key) && key != k@ {
                        let i = choose|i: int| 0 <= i < before.len() && (#[trigger] before[i]).0@ == key;
                        if i < pos {
                            assert(out@[i].0@ == key);
                        } else {
                            assert(out@[i + 1].0@ == key);
                        }
                    }
                    if m1.dom().contains(key) && key == k@ {
                        assert(out@[pos as int].0@ == key);
                    }
                    if exists|i: int| 0 <= i < out@.len() && (#[trigger] out@[i]).0@ == key {
                        let i = choose|i: int| 0 <= i < out@.len() && (#[trigger] out@[i]).0@ == key;
                        if i < pos {
                            assert(before[i].0@ == key);
                        } else if i > pos {
                            assert(before[i - 1].0@ == key);
                        }
                    }
                }
                assert forall|i: int| 0 <= i < out@.len() implies m1[(#[trigger] out@[i]).0@] == out@[i].1 by {
                    if i < pos {
                        assert(out@[i] == before[i]);
                        text::lemma_seq_lt_irreflexive(k@);
                    } else if i > pos {
                        assert(out@[i] == before[i - 1]);
                        text::lemma_seq_lt_irreflexive(k@);
                        text::lemma_seq_lt_trichotomy(before[i - 1].0@, k@);
                        if i - 1 > pos {
                            assert(text::seq_lt(before[pos as int].0@, before[i - 1].0@));
                            text::lemma_seq_lt_trichotomy(before[pos as int].0@, before[i - 1].0@);
                        }
                    }
                }
            }
        }
        proof {
            done = done + 1;
            assert(rest@ =~= orig.skip(done));
            assert(members_map(orig.take(done)) == m1);
        }
    }
    assert(orig.take(done) =~= orig);
    ParamValue::Object(out)
}

} // verus!

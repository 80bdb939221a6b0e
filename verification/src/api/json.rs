//! A JSON document tree and the masking of signing secrets in it.

use vstd::prelude::*;
use crate::text::str_equal;

verus! {

/// A parsed JSON value. Numbers keep their source text; object members keep
/// their order.
#[derive(Debug)]
pub enum JsonValue {
    Null,
    Bool(bool),
    Number(String),
    Str(String),
    Array(Vec<JsonValue>),
    Object(Vec<(String, JsonValue)>),
}

/// The mathematical shape of a [`JsonValue`].
pub enum JsonTree {
    Null,
    Bool(bool),
    Number(Seq<char>),
    Str(Seq<char>),
    Array(Seq<JsonTree>),
    Object(Seq<(Seq<char>, JsonTree)>),
}

impl JsonValue {
    pub open spec fn tree(self) -> JsonTree
        decreases self,
    {
        match self {
            JsonValue::Null => JsonTree::Null,
            JsonValue::Bool(b) => JsonTree::Bool(b),
            JsonValue::Number(n) => JsonTree::Number(n@),
            JsonValue::Str(s) => JsonTree::Str(s@),
            JsonValue::Array(items) => JsonTree::Array(
                Seq::new(
                    items@.len(),
                    |i: int|
                        if 0 <= i < items@.len() {
                            items@[i].tree()
                        } else {
                            JsonTree::Null
                        },
                ),
            ),
            JsonValue::Object(members) => JsonTree::Object(
                Seq::new(
                    members@.len(),
                    |i: int|
                        if 0 <= i < members@.len() {
                            (members@[i].0@, members@[i].1.tree())
                        } else {
                            (Seq::empty(), JsonTree::Null)
                        },
                ),
            ),
        }
    }
}

/// Object keys whose values are signing secrets.
pub open spec fn is_secret_key(k: Seq<char>) -> bool {
    k == "hmacSecret"@ || k == "secret"@
}

/// The mask that replaces a secret value.
pub open spec fn redaction_mark() -> Seq<char> {
    "[REDACTED]"@
}

/// `t` with the value of every `hmacSecret` / `secret` member, at any depth,
/// replaced by the string `[REDACTED]`; everything else unchanged.
pub open spec fn redact_tree(t: JsonTree) -> JsonTree
    decreases t,
{
    match t {
        JsonTree::Array(items) => JsonTree::Array(
            Seq::new(
                items.len(),
                |i: int|
                    if 0 <= i < items.len() {
                        redact_tree(items[i])
                    } else {
                        JsonTree::Null
                    },
            ),
        ),
        JsonTree::Object(members) => JsonTree::Object(
            Seq::new(
                members.len(),
                |i: int|
                    if 0 <= i < members.len() {
                        if is_secret_key(members[i].0) {
                            (members[i].0, JsonTree::Str(redaction_mark()))
                        } else {
                            (members[i].0, redact_tree(members[i].1))
                        }
                    } else {
                        (Seq::empty(), JsonTree::Null)
                    },
            ),
        ),
        _ => t,
    }
}

fn is_secret_key_exec(k: &String) -> (r: bool)
    ensures
        r == is_secret_key(k@),
{
    str_equal(k.as_str(), "hmacSecret") || str_equal(k.as_str(), "secret")
}

/// Consumes `v` and returns it with every secret value masked.
fn redacted(v: JsonValue) -> (r: JsonValue)
    ensures
        r.tree() == redact_tree(v.tree()),
    decreases v,
{
    let ghost vt = v.tree();
    match v {
        JsonValue::Array(items) => {
            let ghost old_items = items@;
            let ghost gi = items;
            proof {
                assert(decreases_to!(v => gi));
                assert(decreases_to!(gi => gi@));
            }
            let mut rest = items;
            let mut reversed: Vec<JsonValue> = Vec::new();
            while rest.len() > 0
                invariant
                    rest@ == old_items.take(rest@.len() as int),
                    rest@.len() <= old_items.len(),
                    old_items == gi@,
                    decreases_to!(v => gi@),
                    reversed@.len() == old_items.len() - rest@.len(),
                    forall|j: int|
                        0 <= j < reversed@.len() ==> #[trigger] reversed@[j].tree() == redact_tree(
                            old_items[old_items.len() - 1 - j].tree(),
                        ),
                decreases rest@.len(),
            {
                let ghost k = rest@.len() - 1;
                let x = rest.pop().unwrap();
                assert(x == old_items[k]);
                assert(decreases_to!(gi@ => gi@[k]));
                assert(decreases_to!(v => x));
                let y = redacted(x);
                reversed.push(y);
                assert(rest@ =~= old_items.take(rest@.len() as int));
            }
            let mut out: Vec<JsonValue> = Vec::new();
            while reversed.len() > 0
                invariant
                    reversed@.len() + out@.len() == old_items.len(),
                    forall|j: int|
                        0 <= j < reversed@.len() ==> #[trigger] reversed@[j].tree() == redact_tree(
                            old_items[old_items.len() - 1 - j].tree(),
                        ),
                    forall|j: int|
                        0 <= j < out@.len() ==> #[trigger] out@[j].tree() == redact_tree(
                            old_items[j].tree(),
                        ),
                decreases reversed@.len(),
            {
                let y = reversed.pop().unwrap();
                out.push(y);
            }
            let r = JsonValue::Array(out);
            assert(r.tree() == redact_tree(vt)) by {
                if let JsonTree::Array(ts) = vt {
                    assert(ts.len() == old_items.len());
                    if let JsonTree::Array(rs) = r.tree() {
                        if let JsonTree::Array(es) = redact_tree(vt) {
                            assert forall|i: int| 0 <= i < rs.len() implies rs[i] == es[i] by {
                                assert(out@[i].tree() == redact_tree(old_items[i].tree()));
                            }
                            assert(rs =~= es);
                        }
                    }
                }
            }
            r
        },
        JsonValue::Object(members) => {
            let ghost old_members = members@;
            let ghost gm = members;
            proof {
                assert(decreases_to!(v => gm));
                assert(decreases_to!(gm => gm@));
            }
            let mut rest = members;
            let mut reversed: Vec<(String, JsonValue)> = Vec::new();
            while rest.len() > 0
                invariant
                    rest@ == old_members.take(rest@.len() as int),
                    rest@.len() <= old_members.len(),
                    old_members == gm@,
                    decreases_to!(v => gm@),
                    reversed@.len() == old_members.len() - rest@.len(),
                    forall|j: int|
                        0 <= j < reversed@.len() ==> {
                            let m = #[trigger] reversed@[j];
                            let o = old_members[old_members.len() - 1 - j];
                            &&& m.0@ == o.0@
                            &&& m.1.tree() == (if is_secret_key(o.0@) {
                                JsonTree::Str(redaction_mark())
                            } else {
                                redact_tree(o.1.tree())
                            })
                        },
                decreases rest@.len(),
            {
                let ghost k = rest@.len() - 1;
                let (key, x) = rest.pop().unwrap();
                assert(x == old_members[k].1);
                let y = if is_secret_key_exec(&key) {
                    JsonValue::Str(String::from_str("[REDACTED]"))
                } else {
                    assert(decreases_to!(gm@ => gm@[k]));
                    assert(decreases_to!(gm@[k] => gm@[k].1));
                    assert(decreases_to!(v => x));
                    redacted(x)
                };
                reversed.push((key, y));
                assert(rest@ =~= old_members.take(rest@.len() as int));
            }
            let mut out: Vec<(String, JsonValue)> = Vec::new();
            while reversed.len() > 0
                invariant
                    reversed@.len() + out@.len() == old_members.len(),
                    forall|j: int|
                        0 <= j < reversed@.len() ==> {
                            let m = #[trigger] reversed@[j];
                            let o = old_members[old_members.len() - 1 - j];
                            &&& m.0@ == o.0@
                            &&& m.1.tree() == (if is_secret_key(o.0@) {
                                JsonTree::Str(redaction_mark())
                            } else {
                                redact_tree(o.1.tree())
                            })
                        },
                    forall|j: int|
                        0 <= j < out@.len() ==> {
                            let m = #[trigger] out@[j];
                            let o = old_members[j];
                            &&& m.0@ == o.0@
                            &&& m.1.tree() == (if is_secret_key(o.0@) {
                                JsonTree::Str(redaction_mark())
                            } else {
                                redact_tree(o.1.tree())
                            })
                        },
                decreases reversed@.len(),
            {
                let m = reversed.pop().unwrap();
                out.push(m);
            }
            let r = JsonValue::Object(out);
            assert(r.tree() == redact_tree(vt)) by {
                if let JsonTree::Object(ts) = vt {
                    assert(ts.len() == old_members.len());
                    if let JsonTree::Object(rs) = r.tree() {
                        if let JsonTree::Object(es) = redact_tree(vt) {
                            assert forall|i: int| 0 <= i < rs.len() implies rs[i] == es[i] by {
                                assert(out@[i].0@ == old_members[i].0@);
                            }
                            assert(rs =~= es);
                        }
                    }
                }
            }
            r
        },
        JsonValue::Null => JsonValue::Null,
        JsonValue::Bool(b) => JsonValue::Bool(b),
        JsonValue::Number(n) => JsonValue::Number(n),
        JsonValue::Str(s) => JsonValue::Str(s),
    }
}

/// No member of `t`, at any depth, has a secret key.
pub open spec fn secret_free(t: JsonTree) -> bool
    decreases t,
{
    match t {
        JsonTree::Array(items) => forall|i: int|
            #![trigger items[i]]
            0 <= i < items.len() ==> secret_free(items[i]),
        JsonTree::Object(members) => forall|i: int|
            #![trigger members[i]]
            0 <= i < members.len() ==> !is_secret_key(members[i].0) && secret_free(members[i].1),
        _ => true,
    }
}

/// Every member of `t` with a secret key, at any depth, holds the mask.
pub open spec fn secrets_masked(t: JsonTree) -> bool
    decreases t,
{
    match t {
        JsonTree::Array(items) => forall|i: int|
            #![trigger items[i]]
            0 <= i < items.len() ==> secrets_masked(items[i]),
        JsonTree::Object(members) => forall|i: int|
            #![trigger members[i]]
            0 <= i < members.len() ==> if is_secret_key(members[i].0) {
                members[i].1 == JsonTree::Str(redaction_mark())
            } else {
                secrets_masked(members[i].1)
            },
        _ => true,
    }
}

/// After masking, every secret member at any depth holds `[REDACTED]`: no
/// signing secret is left in the tree.
pub proof fn lemma_redaction_masks_every_secret(t: JsonTree)
    ensures
        secrets_masked(redact_tree(t)),
    decreases t,
{
    match t {
        JsonTree::Array(items) => {
            if let JsonTree::Array(rs) = redact_tree(t) {
                assert forall|i: int| 0 <= i < rs.len() implies secrets_masked(rs[i]) by {
                    lemma_redaction_masks_every_secret(items[i]);
                }
            }
        },
        JsonTree::Object(members) => {
            if let JsonTree::Object(rs) = redact_tree(t) {
                assert forall|i: int| 0 <= i < rs.len() implies if is_secret_key(rs[i].0) {
                    rs[i].1 == JsonTree::Str(redaction_mark())
                } else {
                    secrets_masked(rs[i].1)
                } by {
                    if !is_secret_key(members[i].0) {
                        lemma_redaction_masks_every_secret(members[i].1);
                    }
                }
            }
        },
        _ => {},
    }
}

/// Masking twice is the same as masking once.
pub proof fn lemma_redaction_idempotent(t: JsonTree)
    ensures
        redact_tree(redact_tree(t)) == redact_tree(t),
    decreases t,
{
    match t {
        JsonTree::Array(items) => {
            if let JsonTree::Array(rs) = redact_tree(t) {
                if let JsonTree::Array(rrs) = redact_tree(redact_tree(t)) {
                    assert forall|i: int| 0 <= i < rs.len() implies rrs[i] == rs[i] by {
                        lemma_redaction_idempotent(items[i]);
                    }
                    assert(rrs =~= rs);
                }
            }
        },
        JsonTree::Object(members) => {
            if let JsonTree::Object(rs) = redact_tree(t) {
                if let JsonTree::Object(rrs) = redact_tree(redact_tree(t)) {
                    assert forall|i: int| 0 <= i < rs.len() implies rrs[i] == rs[i] by {
                        if !is_secret_key(members[i].0) {
                            lemma_redaction_idempotent(members[i].1);
                        }
                    }
                    assert(rrs =~= rs);
                }
            }
        },
        _ => {},
    }
}

/// A document without secret members is left exactly as it was.
pub proof fn lemma_redaction_keeps_secret_free_documents(t: JsonTree)
    requires
        secret_free(t),
    ensures
        redact_tree(t) == t,
    decreases t,
{
    match t {
        JsonTree::Array(items) => {
            if let JsonTree::Array(rs) = redact_tree(t) {
                assert forall|i: int| 0 <= i < rs.len() implies rs[i] == items[i] by {
                    assert(items[i] == items[i]);
                    lemma_redaction_keeps_secret_free_documents(items[i]);
                }
                assert(rs =~= items);
            }
        },
        JsonTree::Object(members) => {
            if let JsonTree::Object(rs) = redact_tree(t) {
                assert forall|i: int| 0 <= i < rs.len() implies rs[i] == members[i] by {
                    assert(members[i] == members[i]);
                    lemma_redaction_keeps_secret_free_documents(members[i].1);
                }
                assert(rs =~= members);
            }
        },
        _ => {},
    }
}

/// Masks, in place, the value of every `hmacSecret` / `secret` member at any
/// depth of `v`, so that a logged body never shows a signing secret.
pub fn redact_json_value(v: &mut JsonValue)
    ensures
        final(v).tree() == redact_tree(old(v).tree()),
{
    let mut taken = JsonValue::Null;
    std::mem::swap(&mut taken, v);
    *v = redacted(taken);
}

} // verus!

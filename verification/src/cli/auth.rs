//! The report of `auth status`: the profile and whether its credentials
//! are accepted by the API.

use vstd::prelude::*;
use vstd::string::StringExecFns;
use crate::api::json::{JsonTree, JsonValue};
use crate::config::Profile;
use crate::text::str_equal;

verus! {

/// What `auth status` reports.
#[derive(Debug)]
pub struct AuthStatus {
    pub profile: String,
    pub api_base_url: String,
    pub authenticated: bool,
    pub client_id: Option<String>,
    pub merchant_id: Option<String>,
}

/// The value of the first member named `key` among `members`.
pub open spec fn member_value(members: Seq<(Seq<char>, JsonTree)>, key: Seq<char>) -> Option<JsonTree>
    decreases members.len(),
{
    if members.len() == 0 {
        None
    } else if members[0].0 == key {
        Some(members[0].1)
    } else {
        member_value(members.drop_first(), key)
    }
}

/// The member `key` of a JSON object (`None` for other values).
pub open spec fn json_get(t: JsonTree, key: Seq<char>) -> Option<JsonTree> {
    match t {
        JsonTree::Object(ms) => member_value(ms, key),
        _ => None,
    }
}

/// The member `key` when it is a boolean.
pub open spec fn json_bool(t: JsonTree, key: Seq<char>) -> Option<bool> {
    match json_get(t, key) {
        Some(JsonTree::Bool(b)) => Some(b),
        _ => None,
    }
}

/// The member `key` when it is a string.
pub open spec fn json_str(t: JsonTree, key: Seq<char>) -> Option<Seq<char>> {
    match json_get(t, key) {
        Some(JsonTree::Str(s)) => Some(s),
        _ => None,
    }
}

/// The value of the first member of `members` named `key`.
fn find_member<'a>(members: &'a Vec<(String, JsonValue)>, key: &str) -> (r: Option<&'a JsonValue>)
    ensures
        match r {
            Some(v) => member_value(
                Seq::new(
                    members@.len(),
                    |i: int| (members@[i].0@, members@[i].1.tree()),
                ),
                key@,
            ) == Some(v.tree()),
            None => member_value(
                Seq::new(
                    members@.len(),
                    |i: int| (members@[i].0@, members@[i].1.tree()),
                ),
                key@,
            ) is None,
        },
{
    let ghost all = Seq::new(members@.len(), |i: int| (members@[i].0@, members@[i].1.tree()));
    let mut i: usize = 0;
    assert(all.skip(0) =~= all);
    while i < members.len()
        invariant
            i <= members@.len(),
            all == Seq::new(members@.len(), |i: int| (members@[i].0@, members@[i].1.tree())),
            member_value(all, key@) == member_value(all.skip(i as int), key@),
        decreases members@.len() - i,
    {
        assert(all.skip(i as int)[0] == all[i as int]);
        if str_equal(members[i].0.as_str(), key) {
            return Some(&members[i].1);
        }
        assert(all.skip(i as int).drop_first() =~= all.skip(i + 1));
        i = i + 1;
    }
    assert(all.skip(i as int).len() == 0);
    None
}

/// The tree of a member list, as [`JsonValue::tree`] builds it.
proof fn lemma_object_tree(members: Vec<(String, JsonValue)>)
    ensures
        JsonValue::Object(members).tree() == JsonTree::Object(
            Seq::new(members@.len(), |i: int| (members@[i].0@, members@[i].1.tree())),
        ),
{
    let t = JsonValue::Object(members).tree();
    if let JsonTree::Object(ms) = t {
        assert(ms.len() == members@.len());
        assert forall|i: int| 0 <= i < ms.len() implies ms[i] == (
            members@[i].0@,
            members@[i].1.tree(),
        ) by {}
        assert(ms =~= Seq::new(members@.len(), |i: int| (members@[i].0@, members@[i].1.tree())));
    }
}

fn get_bool(body: &JsonValue, key: &str) -> (r: Option<bool>)
    ensures
        r == json_bool(body.tree(), key@),
{
    match body {
        JsonValue::Object(ms) => {
            proof {
                lemma_object_tree(*ms);
            }
            match find_member(ms, key) {
                Some(JsonValue::Bool(b)) => Some(*b),
                _ => None,
            }
        },
        _ => None,
    }
}

fn get_str(body: &JsonValue, key: &str) -> (r: Option<String>)
    ensures
        r.deep_view() == json_str(body.tree(), key@),
{
    match body {
        JsonValue::Object(ms) => {
            proof {
                lemma_object_tree(*ms);
            }
            match find_member(ms, key) {
                Some(JsonValue::Str(s)) => Some(s.clone()),
                _ => None,
            }
        },
        _ => None,
    }
}

/// The report for `profile` with stored `credentials` (client id and
/// secret), given the body of the authenticated ping, `None` when the
/// token exchange or the ping failed. Without credentials nothing is
/// attempted and the report says not authenticated. A ping body that omits
/// `authenticated` counts as authenticated; the server's `clientId` takes
/// the place of the stored one, and `merchantId` is reported when present.
pub fn status_report(
    profile: &Profile,
    credentials: Option<(String, String)>,
    ping: Option<JsonValue>,
) -> (r: AuthStatus)
    ensures
        r.profile@ == profile.name@,
        r.api_base_url@ == profile.api_base_url@,
        match (credentials, ping) {
            (Some(c), Some(body)) => {
                &&& r.authenticated == (match json_bool(body.tree(), "authenticated"@) {
                    Some(b) => b,
                    None => true,
                })
                &&& r.client_id.deep_view() == (match json_str(body.tree(), "clientId"@) {
                    Some(s) => Some(s),
                    None => Some(c.0@),
                })
                &&& r.merchant_id.deep_view() == json_str(body.tree(), "merchantId"@)
            },
            (Some(c), None) => !r.authenticated && r.client_id.deep_view() == Some(c.0@)
                && r.merchant_id is None,
            (None, _) => !r.authenticated && r.client_id is None && r.merchant_id is None,
        },
{
    let mut report = AuthStatus {
        profile: profile.name.clone(),
        api_base_url: profile.api_base_url.clone(),
        authenticated: false,
        client_id: None,
        merchant_id: None,
    };
    match credentials {
        Some(c) => {
            report.client_id = Some(c.0);
            match ping {
                Some(body) => {
                    report.authenticated = match get_bool(&body, "authenticated") {
                        Some(b) => b,
                        None => true,
                    };
                    match get_str(&body, "clientId") {
                        Some(id) => {
                            report.client_id = Some(id);
                        },
                        None => {},
                    }
                    report.merchant_id = get_str(&body, "merchantId");
                },
                None => {},
            }
        },
        None => {},
    }
    report
}

/// The table-mode lines of the report.
pub open spec fn status_table(r: AuthStatus) -> Seq<Seq<char>> {
    let base = seq![
        "Profile:       "@ + r.profile@,
        "API base:      "@ + r.api_base_url@,
        "Authenticated: "@ + (if r.authenticated { "true"@ } else { "false"@ }),
        "Client ID:     "@ + match r.client_id {
            Some(c) => c@,
            None => "—"@,
        },
    ];
    match r.merchant_id {
        Some(m) => base.push("Merchant ID:   "@ + m@),
        None => base,
    }
}

fn labeled(label: &str, value: &str) -> (r: String)
    ensures
        r@ == label@ + value@,
{
    let mut s = String::from_str(label);
    s.append(value);
    s
}

/// The lines printed by `auth status` in table mode (see [`status_table`]).
pub fn status_table_lines(r: &AuthStatus) -> (lines: Vec<String>)
    ensures
        lines.deep_view() == status_table(*r),
{
    let mut out: Vec<String> = Vec::new();
    out.push(labeled("Profile:       ", r.profile.as_str()));
    out.push(labeled("API base:      ", r.api_base_url.as_str()));
    out.push(labeled("Authenticated: ", if r.authenticated { "true" } else { "false" }));
    match &r.client_id {
        Some(c) => out.push(labeled("Client ID:     ", c.as_str())),
        None => out.push(labeled("Client ID:     ", "—")),
    }
    match &r.merchant_id {
        Some(m) => out.push(labeled("Merchant ID:   ", m.as_str())),
        None => {},
    }
    assert(out.deep_view() =~= status_table(*r));
    out
}

} // verus!

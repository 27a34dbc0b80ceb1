//! The user-resource consumers of the dispatcher: typed results, the exact
//! targets each endpoint method requests, and the reshaping of list
//! responses.
//!
//! Each endpoint method is a thin caller of the dispatcher: it builds a
//! request description from one of the target builders here, lets the
//! embedding application perform the round trip and decode, and reshapes
//! the decoded list where the caller wants keyed pairs. The targets and the
//! reshaping are specified exactly; the round trip and the generic decode
//! stay with the application.

use vstd::prelude::*;

use crate::json::{bool_text, quoted, spec_bool_text, spec_quoted};
use crate::status::{spec_decimal, decimal_string};

verus! {

/// A fully described user record, as the user-lookup endpoint returns it.
#[derive(Default, Debug, Clone, PartialEq)]
pub struct User {
    pub username: String,
    pub description: String,
    pub created: String,
    pub is_banned: bool,
    pub external_app_display_name: Option<String>,
    pub has_verified_badge: bool,
    pub id: u64,
    pub display_name: String,
}

/// The abbreviated user record that search, batch and session lookups
/// return.
#[derive(Default, Debug, Clone, PartialEq)]
pub struct PartialUser {
    pub username: String,
    pub display_name: String,
    pub id: u64,
}

/// The target of a single-user lookup: the user service's path for `id`.
pub fn user_target(id: u64) -> (r: String)
    ensures
        r@ == "users.roblox.com/v1/users/"@ + spec_decimal(id as nat),
{
    let mut r = String::from_str("users.roblox.com/v1/users/");
    let digits = decimal_string(id);
    r.append(digits.as_str());
    r
}

/// The target that resolves the authenticated session to its own user.
pub fn authenticated_user_target() -> (r: String)
    ensures
        r@ == "users.roblox.com/v1/users/authenticated"@,
{
    String::from_str("users.roblox.com/v1/users/authenticated")
}

/// The target of a username-to-id lookup for `username`.
pub fn user_id_target(username: &str) -> (r: String)
    ensures
        r@ == "api.roblox.com/users/get-by-username?username="@ + username@,
{
    let mut r = String::from_str("api.roblox.com/users/get-by-username?username=");
    r.append(username);
    r
}

/// The target of a user search for `keyword`, capped at `limit` results.
pub fn user_search_target(keyword: &str, limit: u8) -> (r: String)
    ensures
        r@ == "users.roblox.com/v1/users/search?keyword="@ + keyword@ + "&limit="@ + spec_decimal(
            limit as nat,
        ),
{
    let mut r = String::from_str("users.roblox.com/v1/users/search?keyword=");
    r.append(keyword);
    r.append("&limit=");
    let digits = decimal_string(limit as u64);
    r.append(digits.as_str());
    proof {
        assert(r@ =~= "users.roblox.com/v1/users/search?keyword="@ + keyword@ + "&limit="@
            + spec_decimal(limit as nat));
    }
    r
}

/// The target of the batch fetch-by-ids call.
pub fn users_batch_target() -> (r: String)
    ensures
        r@ == "users.roblox.com/v1/users"@,
{
    String::from_str("users.roblox.com/v1/users")
}

/// The target of the batch find-by-usernames call.
pub fn usernames_batch_target() -> (r: String)
    ensures
        r@ == "users.roblox.com/v1/usernames/users"@,
{
    String::from_str("users.roblox.com/v1/usernames/users")
}

/// The target of a username-history lookup for `id`.
pub fn username_history_target(id: u64) -> (r: String)
    ensures
        r@ == "users.roblox.com/v1/users/"@ + spec_decimal(id as nat) + "/username-history"@,
{
    let mut r = String::from_str("users.roblox.com/v1/users/");
    let digits = decimal_string(id);
    r.append(digits.as_str());
    r.append("/username-history");
    proof {
        assert(r@ =~= "users.roblox.com/v1/users/"@ + spec_decimal(id as nat)
            + "/username-history"@);
    }
    r
}

/// The ids of a batch fetch, in decimal, comma-separated, in order.
pub open spec fn spec_id_list(ids: Seq<u64>) -> Seq<char>
    decreases ids.len(),
{
    if ids.len() == 0 {
        Seq::empty()
    } else if ids.len() == 1 {
        spec_decimal(ids[0] as nat)
    } else {
        spec_id_list(ids.drop_last()) + ","@ + spec_decimal(ids.last() as nat)
    }
}

/// The usernames of a batch find, as JSON string literals, comma-separated,
/// in order.
pub open spec fn spec_username_list(usernames: Seq<Seq<char>>) -> Seq<char>
    decreases usernames.len(),
{
    if usernames.len() == 0 {
        Seq::empty()
    } else if usernames.len() == 1 {
        spec_quoted(usernames[0])
    } else {
        spec_username_list(usernames.drop_last()) + ","@ + spec_quoted(usernames.last())
    }
}

/// The body of the batch fetch-by-ids call: the ban-exclusion flag and the
/// id list, as one JSON object.
pub open spec fn spec_batch_fetch_body(ids: Seq<u64>, exclude_banned: bool) -> Seq<char> {
    "{\"excludeBannedUsers\":"@ + spec_bool_text(exclude_banned) + ",\"userIds\":["@ + spec_id_list(
        ids,
    ) + "]}"@
}

/// The body of the batch find-by-usernames call: the ban-exclusion flag and
/// the username list, as one JSON object.
pub open spec fn spec_batch_find_body(usernames: Seq<Seq<char>>, exclude_banned: bool) -> Seq<
    char,
> {
    "{\"excludeBannedUsers\":"@ + spec_bool_text(exclude_banned) + ",\"usernames\":["@
        + spec_username_list(usernames) + "]}"@
}

/// Frames the batch fetch-by-ids body, exactly as [`spec_batch_fetch_body`]
/// describes.
pub fn batch_fetch_body(ids: &Vec<u64>, exclude_banned: bool) -> (r: String)
    ensures
        r@ == spec_batch_fetch_body(ids@, exclude_banned),
{
    let mut r = String::from_str("{\"excludeBannedUsers\":");
    r.append(bool_text(exclude_banned));
    r.append(",\"userIds\":[");
    let ghost prefix = r@;
    let mut i: usize = 0;
    let n: usize = ids.len();
    while i < n
        invariant
            i <= n,
            n == ids@.len(),
            r@ == prefix + spec_id_list(ids@.subrange(0, i as int)),
        decreases n - i,
    {
        if i > 0 {
            r.append(",");
        }
        let digits = decimal_string(ids[i]);
        r.append(digits.as_str());
        proof {
            let sub = ids@.subrange(0, i as int + 1);
            assert(sub.drop_last() =~= ids@.subrange(0, i as int));
            assert(sub.last() == ids@[i as int]);
            assert(r@ =~= prefix + spec_id_list(sub));
        }
        i = i + 1;
    }
    r.append("]}");
    proof {
        assert(ids@.subrange(0, n as int) =~= ids@);
        assert(r@ =~= spec_batch_fetch_body(ids@, exclude_banned));
    }
    r
}

/// Frames the batch find-by-usernames body, exactly as
/// [`spec_batch_find_body`] describes.
pub fn batch_find_body(usernames: &Vec<String>, exclude_banned: bool) -> (r: String)
    ensures
        r@ == spec_batch_find_body(usernames.deep_view(), exclude_banned),
{
    let mut r = String::from_str("{\"excludeBannedUsers\":");
    r.append(bool_text(exclude_banned));
    r.append(",\"usernames\":[");
    let ghost prefix = r@;
    let ghost views = usernames.deep_view();
    let mut i: usize = 0;
    let n: usize = usernames.len();
    while i < n
        invariant
            i <= n,
            n == usernames@.len(),
            views == usernames.deep_view(),
            views.len() == n,
            r@ == prefix + spec_username_list(views.subrange(0, i as int)),
        decreases n - i,
    {
        if i > 0 {
            r.append(",");
        }
        let item = quoted(usernames[i].as_str());
        r.append(item.as_str());
        proof {
            let sub = views.subrange(0, i as int + 1);
            assert(sub.drop_last() =~= views.subrange(0, i as int));
            assert(sub.last() == views[i as int]);
            assert(views[i as int] == usernames@[i as int]@);
            assert(r@ =~= prefix + spec_username_list(sub));
        }
        i = i + 1;
    }
    r.append("]}");
    proof {
        assert(views.subrange(0, n as int) =~= views);
        assert(r@ =~= spec_batch_find_body(views, exclude_banned));
    }
    r
}

/// Reshapes a decoded user list into `(id, username)` pairs, keeping order
/// and multiplicity: the form a batch fetch-by-ids caller keys by id.
pub fn users_to_id_name_pairs(users: &Vec<PartialUser>) -> (r: Vec<(u64, String)>)
    ensures
        r@.len() == users@.len(),
        forall|i: int|
            0 <= i < r@.len() ==> (#[trigger] r@[i]).0 == users@[i].id && r@[i].1@
                == users@[i].username@,
{
    let mut r: Vec<(u64, String)> = Vec::new();
    let mut i: usize = 0;
    let n: usize = users.len();
    while i < n
        invariant
            i <= n,
            n == users@.len(),
            r@.len() == i,
            forall|j: int|
                0 <= j < i ==> (#[trigger] r@[j]).0 == users@[j].id && r@[j].1@
                    == users@[j].username@,
        decreases n - i,
    {
        let name = users[i].username.clone();
        r.push((users[i].id, name));
        i = i + 1;
    }
    r
}

/// Reshapes a decoded user list into `(username, id)` pairs, keeping order
/// and multiplicity: the form a batch find-by-usernames caller keys by
/// username.
pub fn users_to_name_id_pairs(users: &Vec<PartialUser>) -> (r: Vec<(String, u64)>)
    ensures
        r@.len() == users@.len(),
        forall|i: int|
            0 <= i < r@.len() ==> (#[trigger] r@[i]).1 == users@[i].id && r@[i].0@
                == users@[i].username@,
{
    let mut r: Vec<(String, u64)> = Vec::new();
    let mut i: usize = 0;
    let n: usize = users.len();
    while i < n
        invariant
            i <= n,
            n == users@.len(),
            r@.len() == i,
            forall|j: int|
                0 <= j < i ==> (#[trigger] r@[j]).1 == users@[j].id && r@[j].0@
                    == users@[j].username@,
        decreases n - i,
    {
        let name = users[i].username.clone();
        r.push((name, users[i].id));
        i = i + 1;
    }
    r
}

} // verus!

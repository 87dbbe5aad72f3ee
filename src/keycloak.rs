use vstd::prelude::*;

verus! {

/// How a user is looked up.
#[derive(Clone, Debug, PartialEq, Eq)]
pub enum FindUserWays {
    Username(String),
    Sub(String),
}

/// Why a lookup by username did not single out one user.
#[derive(Clone, Copy, Debug, PartialEq, Eq)]
pub enum UserMatchError {
    NoUser,
    SeveralUsers,
}

pub open spec fn realm_users(host_url: Seq<char>, realm: Seq<char>) -> Seq<char> {
    host_url + seq!['/', 'a', 'd', 'm', 'i', 'n', '/', 'r', 'e', 'a', 'l', 'm', 's', '/'] + realm
        + seq!['/', 'u', 's', 'e', 'r', 's', '/']
}

/// The admin API address of the user with the given subject.
pub open spec fn user_url_spec(host_url: Seq<char>, realm: Seq<char>, sub: Seq<char>) -> Seq<char> {
    realm_users(host_url, realm) + sub
}

/// The admin API address that lists the users with the given username.
pub open spec fn username_search_url_spec(
    host_url: Seq<char>,
    realm: Seq<char>,
    username: Seq<char>,
) -> Seq<char> {
    realm_users(host_url, realm) + seq![
        '?', 'u', 's', 'e', 'r', 'n', 'a', 'm', 'e', '=',
    ] + username
}

fn realm_users_url(host_url: &str, realm: &str) -> (r: String)
    ensures
        r@ == realm_users(host_url@, realm@),
{
    proof {
        reveal_strlit("/admin/realms/");
        reveal_strlit("/users/");
    }
    let mut url = String::from_str(host_url);
    url.append("/admin/realms/");
    url.append(realm);
    url.append("/users/");
    url
}

/// `{host_url}/admin/realms/{realm}/users/{sub}`
pub fn user_url(host_url: &str, realm: &str, sub: &str) -> (r: String)
    ensures
        r@ == user_url_spec(host_url@, realm@, sub@),
{
    let mut url = realm_users_url(host_url, realm);
    url.append(sub);
    url
}

/// `{host_url}/admin/realms/{realm}/users/?username={username}`
pub fn username_search_url(host_url: &str, realm: &str, username: &str) -> (r: String)
    ensures
        r@ == username_search_url_spec(host_url@, realm@, username@),
{
    proof {
        reveal_strlit("?username=");
    }
    let mut url = realm_users_url(host_url, realm);
    url.append("?username=");
    url.append(username);
    url
}

/// The address to query for a user found in the given way.
pub fn lookup_url(host_url: &str, realm: &str, way: &FindUserWays) -> (r: String)
    ensures
        r@ == match way {
            FindUserWays::Username(u) => username_search_url_spec(host_url@, realm@, u@),
            FindUserWays::Sub(s) => user_url_spec(host_url@, realm@, s@),
        },
{
    match way {
        FindUserWays::Username(u) => username_search_url(host_url, realm, u.as_str()),
        FindUserWays::Sub(s) => user_url(host_url, realm, s.as_str()),
    }
}

/// A search by username must match exactly one user.
pub fn single_match(count: usize) -> (r: Result<(), UserMatchError>)
    ensures
        count == 1 <==> r is Ok,
        count == 0 ==> r == Err::<(), UserMatchError>(UserMatchError::NoUser),
        count > 1 ==> r == Err::<(), UserMatchError>(UserMatchError::SeveralUsers),
{
    if count == 0 {
        Err(UserMatchError::NoUser)
    } else if count > 1 {
        Err(UserMatchError::SeveralUsers)
    } else {
        Ok(())
    }
}

/// The 128-bit value of a textual UUID, or `None` when the text is not one.
pub uninterp spec fn uuid_value(s: Seq<char>) -> Option<u128>;

/// Relies on `uuid::Uuid::parse_str` (read back through `Uuid::as_u128`): it
/// accepts the simple, hyphenated, braced and URN forms, and rejects all other
/// text, the empty string among it.
#[verifier::external_body]
fn parse_uuid(s: &str) -> (r: Option<u128>)
    ensures
        r == uuid_value(s@),
        s@.len() == 0 ==> r is None,
{
    match uuid::Uuid::parse_str(s) {
        Ok(u) => Some(u.as_u128()),
        Err(_) => None,
    }
}

/// Why a user record did not yield its subject identifier.
#[derive(Clone, Copy, Debug, PartialEq, Eq)]
pub enum SubjectError {
    /// The record has no textual `id`.
    Missing,
    /// The `id` is not a UUID.
    Malformed,
}

/// The subject identifier of a user record, from the text of its `id` field.
pub fn user_subject(id: Option<&str>) -> (r: Result<u128, SubjectError>)
    ensures
        id is None ==> r == Err::<u128, SubjectError>(SubjectError::Missing),
        id matches Some(s) ==> r == (match uuid_value(s@) {
            Some(u) => Ok::<u128, SubjectError>(u),
            None => Err(SubjectError::Malformed),
        }),
{
    match id {
        None => Err(SubjectError::Missing),
        Some(s) => match parse_uuid(s) {
            Some(u) => Ok(u),
            None => Err(SubjectError::Malformed),
        },
    }
}

} // verus!

use vstd::prelude::*;
use crate::text::{has_prefix, join, str_strip_prefix};

pub mod client;
pub mod html;
pub mod user;

verus! {

/// What stands before an agent's identifier in a session identity.
pub const CLIENT_PREFIX: &'static str = "client:";

/// What stands before an operator's name in a session identity.
pub const USER_PREFIX: &'static str = "user:";

/// Who a session belongs to.
#[derive(Debug)]
pub enum Principal {
    /// The agent of this identifier.
    Agent(String),
    /// The operator of this name.
    Operator(String),
}

/// The text of an optional string slice.
pub open spec fn opt_str_text(text: Option<&str>) -> Option<Seq<char>> {
    match text {
        Some(t) => Some(t@),
        None => None,
    }
}

/// What follows `prefix` in a session identity, where there is a session
/// and its identity begins with `prefix`.
pub open spec fn identity_after(user: Option<Seq<char>>, prefix: Seq<char>) -> Option<Seq<char>> {
    match user {
        Some(identity) if has_prefix(identity, prefix) => Some(
            identity.subrange(prefix.len() as int, identity.len() as int),
        ),
        _ => None,
    }
}

/// Whether a session of an agent holds.
pub open spec fn is_agent(user: Option<&str>) -> bool {
    identity_after(opt_str_text(user), CLIENT_PREFIX@) is Some
}

/// The identifier of the agent that a session belongs to.
pub open spec fn agent_of(user: Option<&str>) -> Seq<char> {
    identity_after(opt_str_text(user), CLIENT_PREFIX@)->0
}

/// Whether a session of an operator holds.
pub open spec fn is_operator(user: Option<&str>) -> bool {
    identity_after(opt_str_text(user), USER_PREFIX@) is Some
}

/// The session identity of the agent of the given identifier.
pub fn client_identity(id: &str) -> (identity: String)
    ensures
        identity@ == CLIENT_PREFIX@ + id@,
{
    join(CLIENT_PREFIX, id)
}

/// The session identity of the operator of the given name.
pub fn user_identity(username: &str) -> (identity: String)
    ensures
        identity@ == USER_PREFIX@ + username@,
{
    join(USER_PREFIX, username)
}

/// The identifier of the agent that a session belongs to; `None` without
/// a session and for a session of an operator.
pub fn client_logged_in(user: Option<&str>) -> (id: Option<String>)
    ensures
        id is Some <==> identity_after(opt_str_text(user), CLIENT_PREFIX@) is Some,
        id matches Some(found) ==> Some(found@) == identity_after(
            opt_str_text(user),
            CLIENT_PREFIX@,
        ),
{
    match user {
        Some(identity) => match str_strip_prefix(identity, CLIENT_PREFIX) {
            Some(rest) => Some(rest.to_owned()),
            None => None,
        },
        None => None,
    }
}

/// The name of the operator that a session belongs to; `None` without a
/// session and for a session of an agent.
pub fn user_logged_in(user: Option<&str>) -> (username: Option<String>)
    ensures
        username is Some <==> identity_after(opt_str_text(user), USER_PREFIX@) is Some,
        username matches Some(found) ==> Some(found@) == identity_after(
            opt_str_text(user),
            USER_PREFIX@,
        ),
{
    match user {
        Some(identity) => match str_strip_prefix(identity, USER_PREFIX) {
            Some(rest) => Some(rest.to_owned()),
            None => None,
        },
        None => None,
    }
}

/// Who a session identity belongs to, if to anyone.
pub fn principal(identity: &str) -> (who: Option<Principal>)
    ensures
        match who {
            Some(Principal::Agent(id)) => Some(id@) == identity_after(
                Some(identity@),
                CLIENT_PREFIX@,
            ),
            Some(Principal::Operator(name)) => Some(name@) == identity_after(
                Some(identity@),
                USER_PREFIX@,
            ) && identity_after(Some(identity@), CLIENT_PREFIX@) is None,
            None => identity_after(Some(identity@), CLIENT_PREFIX@) is None && identity_after(
                Some(identity@),
                USER_PREFIX@,
            ) is None,
        },
{
    match client_logged_in(Some(identity)) {
        Some(id) => Some(Principal::Agent(id)),
        None => match user_logged_in(Some(identity)) {
            Some(name) => Some(Principal::Operator(name)),
            None => None,
        },
    }
}

/// The session of an agent names that agent and no operator; the session
/// of an operator names that operator and no agent. Whether a session
/// holds is read from its identity alone: nothing that is stored of the
/// agent, such as whether it is enabled, enters into it.
pub proof fn lemma_identity_round_trip(name: Seq<char>)
    ensures
        identity_after(Some(CLIENT_PREFIX@ + name), CLIENT_PREFIX@) == Some(name),
        identity_after(Some(CLIENT_PREFIX@ + name), USER_PREFIX@) is None,
        identity_after(Some(USER_PREFIX@ + name), USER_PREFIX@) == Some(name),
        identity_after(Some(USER_PREFIX@ + name), CLIENT_PREFIX@) is None,
{
    reveal_strlit("client:");
    reveal_strlit("user:");
    let as_client = CLIENT_PREFIX@ + name;
    let as_user = USER_PREFIX@ + name;
    assert(as_client.subrange(0, 7) =~= CLIENT_PREFIX@);
    assert(as_client.subrange(7, as_client.len() as int) =~= name);
    assert(as_user.subrange(0, 5) =~= USER_PREFIX@);
    assert(as_user.subrange(5, as_user.len() as int) =~= name);
    if has_prefix(as_client, USER_PREFIX@) {
        assert(as_client.subrange(0, 5)[0] == 'u');
    }
    if has_prefix(as_user, CLIENT_PREFIX@) {
        assert(as_user.subrange(0, 7)[0] == 'c');
    }
}

/// The query of the login page.
#[derive(Debug)]
pub struct LoginHtml {
    pub redirect: Option<String>,
}

/// Where an operator goes on after login: the place asked for if it is a
/// path of this site, that is, begins with `/`; the start page otherwise.
pub open spec fn redirect_target(redirect: Option<String>) -> Seq<char> {
    match redirect {
        Some(asked) if has_prefix(asked@, "/"@) => asked@,
        _ => "/"@,
    }
}

/// Where to send an operator after login: the place asked for if it is a
/// path of this site, the start page otherwise.
pub fn login_redirect(redirect: &Option<String>) -> (target: String)
    ensures
        target@ == redirect_target(*redirect),
{
    match redirect {
        Some(asked) => {
            if str_strip_prefix(asked.as_str(), "/").is_some() {
                asked.clone()
            } else {
                "/".to_owned()
            }
        },
        None => "/".to_owned(),
    }
}

} // verus!

use vstd::prelude::*;
use crate::models::{Search, SearchResult, SearchType, SearchView};
use crate::seqs::lemma_filter_commutes_with_map;
use crate::sql::client::{
    delete_client, get_clients, has_client, set_client_manual_run, without_client,
    ClientLastRun, ClientRecord, SLClient,
};
use crate::sql::user::{
    user_accepts, user_login, user_position, user_refused, user_unreadable, UserRecord,
};
use crate::sql::webhooks::{
    add_webhook, delete_webhook, has_webhook, without_webhook, Webhook,
};
use crate::sql::{
    delete_search, enriched, get_all_search_results, get_search_results, get_searches,
    has_search, insert_search, is_selected, is_selected_view, opt_text,
    set_search_schedule_minutes, without_search, ScheduleRow, SearchRow, SqlError, StoredResult,
};
use crate::text::{str_lines, text_lines};
use crate::time::Timestamp;
use crate::web::{
    identity_after, is_operator, login_redirect, opt_str_text, redirect_target, user_identity,
    user_logged_in, USER_PREFIX,
};

verus! {

/// What the server answers to an operator's login.
#[derive(Debug)]
pub enum UserLoginReply {
    /// The operator is logged in: the session is to remember `identity`,
    /// and the operator is sent to `location`.
    LoggedIn { identity: String, location: String },
    /// The login failed; the operator is sent back to the login page. Why
    /// it failed is not told.
    Failed,
}

/// Answers an operator's login. An unknown operator, a disabled one and a
/// wrong password all fail alike. An operator who is let in is sent to the
/// place asked for if it is a path of this site, else to the start page.
/// It is an error, and nothing changes, where the stored hash of an
/// enabled operator cannot be read.
pub fn api_user_login(
    users: &mut Vec<UserRecord>,
    username: &str,
    password: &str,
    redirect: &Option<String>,
    now: Timestamp,
) -> (r: Result<UserLoginReply, SqlError>)
    ensures
        user_accepts(old(users)@, username@, password@) ==> (r matches Ok(
            UserLoginReply::LoggedIn { identity, location },
        ) && identity@ == USER_PREFIX@ + username@ && location@ == redirect_target(*redirect))
            && final(users)@ == old(users)@.update(
            user_position(old(users)@, username@)->0,
            UserRecord {
                lastlogin: Some(now),
                ..old(users)@[user_position(old(users)@, username@)->0]
            },
        ),
        user_position(old(users)@, username@) is None || user_refused(
            old(users)@,
            username@,
            password@,
        ) ==> (r matches Ok(UserLoginReply::Failed)) && final(users)@ == old(users)@,
        user_unreadable(old(users)@, username@, password@) ==> (r matches Err(
            SqlError::Bcrypt(_),
        )) && final(users)@ == old(users)@,
{
    match user_login(users, username, password, now) {
        Ok(true) => Ok(
            UserLoginReply::LoggedIn {
                identity: user_identity(username),
                location: login_redirect(redirect),
            },
        ),
        Ok(false) => Ok(UserLoginReply::Failed),
        Err(SqlError::UserNotExist) => Ok(UserLoginReply::Failed),
        Err(e) => Err(e),
    }
}

/// The name of the operator that a session belongs to, as the site shows
/// it: `Null` without an operator's session.
pub fn api_user_username(user: Option<&str>) -> (shown: String)
    ensures
        shown@ == match identity_after(opt_str_text(user), USER_PREFIX@) {
            Some(name) => name,
            None => "Null"@,
        },
{
    match user_logged_in(user) {
        Some(name) => name,
        None => "Null".to_owned(),
    }
}

/// The row to store for a search that an operator defines. The locations
/// come as one text, a location to a line. A caller without an operator's
/// session defines nothing.
pub fn api_user_insert_search(
    user: Option<&str>,
    id: i32,
    name: &str,
    stype: &SearchType,
    search: &str,
    locations: &str,
) -> (row: Option<SearchRow>)
    ensures
        row is Some <==> is_operator(user),
        row matches Some(stored) ==> stored.enabled && stored.defines() == Some(
            SearchView {
                id: id as int,
                name: name@,
                stype: *stype,
                search: search@,
                locations: text_lines(locations@),
            },
        ),
{
    if user_logged_in(user).is_some() {
        let lines = str_lines(locations);
        Some(insert_search(id, name, stype, search, &lines))
    } else {
        None
    }
}

/// The row to store for the schedule that an operator sets: an interval in
/// minutes, and the override, which is off where it is not given. `None`
/// for a caller without an operator's session. An interval that is not
/// positive, or too long to be stored, is refused.
pub fn api_user_set_schedule(user: Option<&str>, schedule: u64, manual: Option<bool>) -> (r: Option<
    Result<ScheduleRow, SqlError>,
>)
    ensures
        r is Some <==> is_operator(user),
        r matches Some(set) ==> {
            &&& set is Ok <==> 0 < schedule <= i32::MAX
            &&& set matches Ok(row) ==> row.minutes == schedule && row.manual == (manual == Some(
                true,
            ))
            &&& set matches Err(e) ==> e matches SqlError::NoSuchSchedule(0)
        },
{
    if user_logged_in(user).is_none() {
        return None;
    }
    let manual = match manual {
        Some(m) => m,
        None => false,
    };
    if schedule > 0x7fff_ffff {
        return Some(Err(SqlError::NoSuchSchedule(0)));
    }
    Some(set_search_schedule_minutes(schedule as i32, manual))
}

/// What the server answers to an operator's request to remove an agent.
#[derive(Debug, Clone, Copy, PartialEq, Eq, Structural)]
pub enum DeleteReply {
    /// The agent is removed.
    Removed,
    /// There was no such agent to remove.
    NotRemoved,
    /// The caller has no operator's session and is sent to the login page.
    Login,
}

/// Removes an agent on an operator's request.
pub fn api_user_client_delete(user: Option<&str>, clients: &mut Vec<ClientRecord>, id: &str) -> (reply:
    DeleteReply)
    ensures
        reply == if !is_operator(user) {
            DeleteReply::Login
        } else if has_client(old(clients)@, id@) {
            DeleteReply::Removed
        } else {
            DeleteReply::NotRemoved
        },
        final(clients)@ == if is_operator(user) {
            without_client(old(clients)@, id@)
        } else {
            old(clients)@
        },
{
    if user_logged_in(user).is_none() {
        return DeleteReply::Login;
    }
    if delete_client(clients, id) {
        DeleteReply::Removed
    } else {
        DeleteReply::NotRemoved
    }
}

/// The stored agents as an operator sees them; `None` for a caller
/// without an operator's session.
pub fn api_fetch_clients(user: Option<&str>, clients: &Vec<ClientRecord>) -> (listed: Option<
    Vec<SLClient>,
>)
    ensures
        listed is Some <==> is_operator(user),
        listed matches Some(shown) ==> shown@ == clients@.map_values(
            |c: ClientRecord| c.exposed(),
        ),
{
    if user_logged_in(user).is_some() {
        Some(get_clients(clients))
    } else {
        None
    }
}

/// Removes a search definition on an operator's request and says whether
/// one was there to remove; `None`, and nothing removed, for a caller
/// without an operator's session.
pub fn api_user_delete_search(user: Option<&str>, rows: &mut Vec<SearchRow>, id: i32) -> (removed:
    Option<bool>)
    ensures
        removed == if is_operator(user) {
            Some(has_search(old(rows)@, id as int))
        } else {
            None
        },
        final(rows)@ == if is_operator(user) {
            without_search(old(rows)@, id as int)
        } else {
            old(rows)@
        },
{
    if user_logged_in(user).is_some() {
        Some(delete_search(rows, id))
    } else {
        None
    }
}

/// The stored results that pass an operator's filters, with the names of
/// their agents and searches, in the stored order; `None` for a caller
/// without an operator's session.
pub fn api_user_get_search_results(
    user: Option<&str>,
    rows: &Vec<StoredResult>,
    searches: &Vec<SearchRow>,
    clients: &Vec<ClientRecord>,
    clientid: &Option<String>,
    before: Option<Timestamp>,
    after: Option<Timestamp>,
) -> (results: Option<Vec<SearchResult>>)
    ensures
        results is Some <==> is_operator(user),
        results matches Some(selected) ==> selected@.map_values(|r: SearchResult| r@)
            == rows@.filter_map(|row: StoredResult| enriched(row, searches@, clients@)).filter(
            |r: crate::models::SearchResultView|
                is_selected_view(r, opt_text(*clientid), before, after),
        ),
{
    if user_logged_in(user).is_none() {
        return None;
    }
    let all = get_all_search_results(rows, searches, clients);
    proof {
        lemma_filter_commutes_with_map(
            all@,
            |r: SearchResult| is_selected(r, opt_text(*clientid), before, after),
            |r: SearchResult| r@,
            |r: crate::models::SearchResultView|
                is_selected_view(r, opt_text(*clientid), before, after),
        );
    }
    Some(get_search_results(all, clientid, before, after))
}

/// The searches that agents are to run, as an operator sees them; `None`
/// for a caller without an operator's session.
pub fn api_user_get_searches(user: Option<&str>, rows: &Vec<SearchRow>) -> (searches: Option<
    Vec<Search>,
>)
    ensures
        searches is Some <==> is_operator(user),
        searches matches Some(shown) ==> shown@.map_values(|s: Search| s@) == rows@.filter_map(
            |row: SearchRow| row.distributes(),
        ),
{
    if user_logged_in(user).is_some() {
        Some(get_searches(rows))
    } else {
        None
    }
}

/// The stored webhooks as an operator sees them, in the stored order;
/// `None` for a caller without an operator's session.
pub fn api_user_webhooks_fetch(user: Option<&str>, hooks: &Vec<Webhook>) -> (shown: Option<
    Vec<Webhook>,
>)
    ensures
        shown is Some <==> is_operator(user),
        shown matches Some(listed) ==> {
            &&& listed@.len() == hooks@.len()
            &&& forall|i: int|
                0 <= i < listed@.len() ==> (#[trigger] listed@[i]).name@ == hooks@[i].name@
                    && listed@[i].url@ == hooks@[i].url@ && listed@[i].username@
                    == hooks@[i].username@
        },
{
    if user_logged_in(user).is_none() {
        return None;
    }
    let mut listed: Vec<Webhook> = Vec::new();
    let mut i: usize = 0;
    while i < hooks.len()
        invariant
            0 <= i <= hooks.len(),
            listed@.len() == i,
            forall|j: int|
                0 <= j < i ==> (#[trigger] listed@[j]).name@ == hooks@[j].name@ && listed@[j].url@
                    == hooks@[j].url@ && listed@[j].username@ == hooks@[j].username@,
        decreases hooks.len() - i,
    {
        let hook = &hooks[i];
        listed.push(Webhook::new(hook.name.as_str(), hook.url.as_str(), hook.username.as_str()));
        i += 1;
    }
    Some(listed)
}

/// Stores a webhook on an operator's request; `None`, and nothing stored,
/// for a caller without an operator's session. A name that a stored
/// webhook has is refused.
pub fn api_user_webhooks_add(
    user: Option<&str>,
    hooks: &mut Vec<Webhook>,
    name: &str,
    url: &str,
    username: &str,
) -> (r: Option<Result<(), SqlError>>)
    ensures
        r is Some <==> is_operator(user),
        !(r matches Some(Ok(_))) ==> final(hooks)@ == old(hooks)@,
        r matches Some(added) ==> (added is Err <==> has_webhook(old(hooks)@, name@)),
        r matches Some(Ok(_)) ==> {
            &&& final(hooks)@.len() == old(hooks)@.len() + 1
            &&& final(hooks)@.drop_last() == old(hooks)@
            &&& final(hooks)@.last().name@ == name@
            &&& final(hooks)@.last().url@ == url@
            &&& final(hooks)@.last().username@ == username@
        },
{
    if user_logged_in(user).is_some() {
        Some(add_webhook(hooks, name, url, username))
    } else {
        None
    }
}

/// Removes a webhook on an operator's request and says whether one was
/// there to remove; `None`, and nothing removed, for a caller without an
/// operator's session.
pub fn api_user_webhooks_delete(user: Option<&str>, hooks: &mut Vec<Webhook>, name: &str) -> (removed:
    Option<bool>)
    ensures
        removed == if is_operator(user) {
            Some(has_webhook(old(hooks)@, name@))
        } else {
            None
        },
        final(hooks)@ == if is_operator(user) {
            without_webhook(old(hooks)@, name@)
        } else {
            old(hooks)@
        },
{
    if user_logged_in(user).is_some() {
        Some(delete_webhook(hooks, name))
    } else {
        None
    }
}

/// The run bookkeeping of an agent after an operator asked for a run out
/// of turn; `None` for a caller without an operator's session. The run
/// stays asked for until the agent starts one.
pub fn api_user_manual_run(user: Option<&str>, current: ClientLastRun) -> (next: Option<
    ClientLastRun,
>)
    ensures
        next == if is_operator(user) {
            Some(ClientLastRun { lastrun: current.lastrun, manualrun: true })
        } else {
            None
        },
{
    if user_logged_in(user).is_some() {
        Some(set_client_manual_run(current))
    } else {
        None
    }
}

} // verus!

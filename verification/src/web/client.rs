use vstd::prelude::*;
use crate::models::{ClientSearchResult, Search};
use crate::schedule::{run_is_due, should_run};
use crate::seqs::{lemma_filter_empty, lemma_filter_push, lemma_filter_without_rejected};
use crate::constants::CREDENTIAL_LEN;
use crate::secrets::is_alphanumeric;
use crate::sql::client::{
    client_accepts, client_auth_create, client_authenticate, client_position, client_refused,
    client_set_enabled, client_unreadable, has_client, has_client_name, ids_are_distinct,
    set_client_last_run, with_client_enabled, ClientAuth, ClientLastRun, ClientRecord,
};
use crate::sql::user::{
    user_accepts, user_login, user_position, user_refused, user_unreadable, UserRecord,
};
use crate::sql::{
    find_search, get_searches, insert_client_search_result, search_position, ScanSchedule,
    SearchRow, SqlError, StoredResult,
};
use crate::text::join;
use crate::time::Timestamp;
use crate::web::{
    agent_of, client_identity, client_logged_in, is_agent, is_operator, user_logged_in,
    CLIENT_PREFIX,
};

verus! {

/// What the server answers to an agent's login.
#[derive(Debug)]
pub enum LoginReply {
    /// The caller has a session of an agent already.
    AlreadyLoggedIn,
    /// The agent is logged in; the session is to remember this identity.
    LoggedIn(String),
    /// The login failed. Why is not told.
    Failed,
}

/// Answers an agent's login. A caller with an agent's session is logged in
/// already. Otherwise the agent is authenticated; an unknown agent, a
/// disabled one and a wrong secret all fail alike. It is an error, and
/// nothing changes, where the stored hash of an enabled agent cannot be
/// read.
pub fn api_client_login(
    user: Option<&str>,
    clients: &mut Vec<ClientRecord>,
    id: &str,
    token: &str,
    now: Timestamp,
) -> (r: Result<LoginReply, SqlError>)
    ensures
        is_agent(user) ==> (r matches Ok(LoginReply::AlreadyLoggedIn)) && final(clients)@ == old(clients)@,
        !is_agent(user) && client_accepts(old(clients)@, id@, token@) ==> (r matches Ok(
            LoginReply::LoggedIn(identity),
        ) && identity@ == CLIENT_PREFIX@ + id@) && final(clients)@ == old(clients)@.update(
            client_position(old(clients)@, id@)->0,
            ClientRecord {
                lastconnect: now,
                ..old(clients)@[client_position(old(clients)@, id@)->0]
            },
        ),
        !is_agent(user) && (client_position(old(clients)@, id@) is None || client_refused(
            old(clients)@,
            id@,
            token@,
        )) ==> (r matches Ok(LoginReply::Failed)) && final(clients)@ == old(clients)@,
        !is_agent(user) && client_unreadable(old(clients)@, id@, token@) ==> (r matches Err(
            SqlError::Bcrypt(_),
        )) && final(clients)@ == old(clients)@,
{
    if client_logged_in(user).is_some() {
        return Ok(LoginReply::AlreadyLoggedIn);
    }
    match client_authenticate(clients, id, token, now) {
        Ok(true) => Ok(LoginReply::LoggedIn(client_identity(id))),
        Ok(false) => Ok(LoginReply::Failed),
        Err(SqlError::ClientNotExist(_)) => Ok(LoginReply::Failed),
        Err(e) => Err(e),
    }
}

/// Answers an agent's request for its searches: the enabled definitions,
/// in the stored order. A caller without an agent's session gets none.
pub fn api_client_get_searches(user: Option<&str>, rows: &Vec<SearchRow>) -> (searches: Vec<Search>)
    ensures
        is_agent(user) ==> searches@.map_values(|s: Search| s@) == rows@.filter_map(
            |row: SearchRow| row.distributes(),
        ),
        !is_agent(user) ==> searches@.len() == 0,
{
    if client_logged_in(user).is_some() {
        get_searches(rows)
    } else {
        Vec::new()
    }
}

/// Answers an agent's question whether it is to run at `now`; `None` for a
/// caller without an agent's session.
pub fn api_client_should_run(
    user: Option<&str>,
    schedule: &ScanSchedule,
    lastrun: &ClientLastRun,
    now: Timestamp,
) -> (answer: Option<bool>)
    ensures
        answer == if is_agent(user) {
            Some(run_is_due(*lastrun, *schedule, now))
        } else {
            None
        },
{
    if client_logged_in(user).is_some() {
        Some(should_run(lastrun, schedule, now))
    } else {
        None
    }
}

/// Answers an agent's notice that it starts a run at `now`: the agent's
/// identifier and its new run bookkeeping; `None` for a caller without an
/// agent's session.
pub fn api_client_notify_running(user: Option<&str>, now: Timestamp) -> (r: Option<
    (String, ClientLastRun),
>)
    ensures
        r is Some <==> is_agent(user),
        r matches Some(update) ==> update.0@ == agent_of(user) && update.1 == (ClientLastRun {
            lastrun: now,
            manualrun: false,
        }),
{
    match client_logged_in(user) {
        Some(id) => Some((id, set_client_last_run(now))),
        None => None,
    }
}

/// Enables or disables an agent on an operator's request. Without the
/// word, the agent is disabled. Says whether the caller had an operator's
/// session; a caller without one changes nothing.
pub fn api_client_set_enabled(
    user: Option<&str>,
    clients: &mut Vec<ClientRecord>,
    id: &str,
    enabled: Option<bool>,
) -> (done: bool)
    ensures
        done == is_operator(user),
        final(clients)@ == if is_operator(user) {
            with_client_enabled(old(clients)@, id@, enabled == Some(true))
        } else {
            old(clients)@
        },
{
    if user_logged_in(user).is_some() {
        let enabled = match enabled {
            Some(e) => e,
            None => false,
        };
        client_set_enabled(clients, id, enabled);
        true
    } else {
        false
    }
}

/// Creates an agent for an operator who presents name and password. An
/// unknown operator is an error; one who is disabled or presents a wrong
/// password gets `None`; where the stored hash of an enabled operator
/// cannot be read, that is an error. In none of these cases is anything
/// created or changed. An operator who is let in has the login recorded,
/// and the agent is created as `client_auth_create` creates it: a display
/// name that a stored agent has is refused, hashing the secret and drawing
/// the identifier can fail, and an error leaves the stored agents as they
/// are.
pub fn api_client_create(
    users: &mut Vec<UserRecord>,
    clients: &mut Vec<ClientRecord>,
    username: &str,
    password: &str,
    name: &str,
    now: Timestamp,
) -> (r: Result<Option<(ClientAuth, ClientLastRun)>, SqlError>)
    ensures
        !user_accepts(old(users)@, username@, password@) ==> !(r matches Ok(Some(_))) && final(clients)@ == old(clients)@ && final(users)@ == old(users)@,
        user_accepts(old(users)@, username@, password@) ==> final(users)@ == old(users)@.update(
            user_position(old(users)@, username@)->0,
            UserRecord {
                lastlogin: Some(now),
                ..old(users)@[user_position(old(users)@, username@)->0]
            },
        ),
        (r matches Err(SqlError::UserNotExist)) <==> user_position(old(users)@, username@) is None,
        user_refused(old(users)@, username@, password@) ==> (r matches Ok(None)),
        user_unreadable(old(users)@, username@, password@) ==> (r matches Err(
            SqlError::Bcrypt(_),
        )),
        user_accepts(old(users)@, username@, password@) && has_client_name(
            old(clients)@,
            name@,
        ) ==> (r matches Err(SqlError::ClientNameExists(n)) && n@ == name@),
        user_accepts(old(users)@, username@, password@) && !has_client_name(
            old(clients)@,
            name@,
        ) ==> !(r matches Ok(None)) && !(r matches Err(SqlError::ClientNameExists(_))),
        r matches Err(e) ==> final(clients)@ == old(clients)@ && (user_accepts(
            old(users)@,
            username@,
            password@,
        ) ==> e is ClientNameExists || e is Bcrypt || e is ClientCreateFailed),
        r matches Ok(Some(made)) ==> {
            let auth = made.0;
            let schedule = made.1;
            &&& user_accepts(old(users)@, username@, password@)
            &&& !has_client_name(old(clients)@, name@)
            &&& schedule == (ClientLastRun { lastrun: now, manualrun: false })
            &&& !has_client(old(clients)@, auth.id@)
            &&& auth.id@.len() == CREDENTIAL_LEN
            &&& auth.token@.len() == CREDENTIAL_LEN
            &&& forall|i: int| 0 <= i < auth.id@.len() ==> is_alphanumeric(#[trigger] auth.id@[i])
            &&& forall|i: int|
                0 <= i < auth.token@.len() ==> is_alphanumeric(#[trigger] auth.token@[i])
            &&& final(clients)@.len() == old(clients)@.len() + 1
            &&& final(clients)@.drop_last() == old(clients)@
            &&& final(clients)@.last().id@ == auth.id@
            &&& final(clients)@.last().name@ == name@
            &&& final(clients)@.last().enabled
            &&& final(clients)@.last().created == now
            &&& final(clients)@.last().lastconnect == now
            &&& client_accepts(final(clients)@, auth.id@, auth.token@)
            &&& ids_are_distinct(old(clients)@) ==> ids_are_distinct(final(clients)@)
        },
        r matches Ok(None) ==> final(clients)@ == old(clients)@,
{
    match user_login(users, username, password, now) {
        Err(e) => Err(e),
        Ok(false) => Ok(None),
        Ok(true) => match client_auth_create(clients, name, now) {
            Ok(made) => Ok(Some(made)),
            Err(e) => Err(e),
        },
    }
}

/// Whether a reported result can be stored: its search is a stored one.
pub open spec fn is_storable(entry: ClientSearchResult, searches: Seq<SearchRow>) -> bool {
    search_position(searches, entry.search_id as int) is Some
}

/// The results of a batch that can be stored, in the order of the batch.
pub open spec fn storable(batch: Seq<ClientSearchResult>, searches: Seq<SearchRow>) -> Seq<
    ClientSearchResult,
> {
    batch.filter(|entry: ClientSearchResult| is_storable(entry, searches))
}

/// The results of a batch that cannot be stored, in the order of the batch.
pub open spec fn unstorable(batch: Seq<ClientSearchResult>, searches: Seq<SearchRow>) -> Seq<
    ClientSearchResult,
> {
    batch.filter(|entry: ClientSearchResult| !is_storable(entry, searches))
}

/// Whether `row` is what is stored for `entry`, reported by agent `client`.
pub open spec fn stores(row: StoredResult, client: Seq<char>, entry: ClientSearchResult) -> bool {
    &&& row.client@ == client
    &&& row.search == entry.search_id
    &&& row.location == entry.location
    &&& row.found == entry.found
    &&& row.started == entry.started
}

/// The message that tells of new results of agent `client`.
pub open spec fn results_message(client: Seq<char>) -> Seq<char> {
    "New scan results for client "@ + client + " received"@
}

/// The message to send to the webhooks after agent `client_id` reported
/// `reported` results of which `failed` were not stored. There is one
/// message for a batch that holds a result and is stored whole, and none
/// otherwise; how many lines the results hold does not enter into it.
pub fn results_notice(client_id: &str, reported: usize, failed: usize) -> (message: Option<String>)
    ensures
        message is Some <==> reported > 0 && failed == 0,
        message matches Some(text) ==> text@ == results_message(client_id@),
{
    if reported > 0 && failed == 0 {
        let head = join("New scan results for client ", client_id);
        Some(join(head.as_str(), " received"))
    } else {
        None
    }
}

/// What became of a batch of results that an agent reported.
#[derive(Debug)]
pub struct Ingested {
    /// The identifier of the agent that reported the batch.
    pub client: String,
    /// The rows to store, one for each result that can be stored.
    pub stored: Vec<StoredResult>,
    /// One error for each result that cannot be stored.
    pub failed: Vec<SqlError>,
    /// The message to send to the webhooks once the rows are stored, if
    /// one is to be sent.
    pub message: Option<String>,
}

/// Takes in a batch of results from the agent that the session belongs
/// to; `None` for a caller without an agent's session. Each result is
/// taken in by itself: one whose search is not stored fails, and the
/// others are stored all the same. One message goes to the webhooks for
/// a batch that holds a result and is stored whole; how many lines the
/// results hold does not enter into it.
pub fn api_client_send_search_results(
    user: Option<&str>,
    batch: Vec<ClientSearchResult>,
    searches: &Vec<SearchRow>,
) -> (r: Option<Ingested>)
    ensures
        r is Some <==> is_agent(user),
        r matches Some(taken) ==> {
            let kept = storable(batch@, searches@);
            let refused = unstorable(batch@, searches@);
            &&& taken.client@ == agent_of(user)
            &&& taken.stored@.len() == kept.len()
            &&& forall|i: int|
                0 <= i < kept.len() ==> stores(#[trigger] taken.stored@[i], agent_of(user), kept[i])
            &&& taken.failed@.len() == refused.len()
            &&& forall|i: int|
                0 <= i < refused.len() ==> (#[trigger] taken.failed@[i] matches SqlError::SearchNotExist(
                    id,
                ) && id == refused[i].search_id)
            &&& taken.message is Some <==> batch@.len() > 0 && refused.len() == 0
            &&& taken.message matches Some(text) ==> text@ == results_message(agent_of(user))
        },
{
    let client_id = match client_logged_in(user) {
        Some(id) => id,
        None => {
            return None;
        },
    };
    let mut stored: Vec<StoredResult> = Vec::new();
    let mut failed: Vec<SqlError> = Vec::new();
    let ghost all = batch@;
    let count = batch.len();
    proof {
        lemma_filter_empty(|entry: ClientSearchResult| is_storable(entry, searches@));
        lemma_filter_empty(|entry: ClientSearchResult| !is_storable(entry, searches@));
        assert(all.subrange(0, 0) =~= Seq::<ClientSearchResult>::empty());
    }
    for entry in it: batch
        invariant
            it.seq() == all,
            client_id@ == agent_of(user),
            stored@.len() == storable(all.subrange(0, it.index() as int), searches@).len(),
            forall|i: int|
                0 <= i < stored@.len() ==> stores(
                    #[trigger] stored@[i],
                    agent_of(user),
                    storable(all.subrange(0, it.index() as int), searches@)[i],
                ),
            failed@.len() == unstorable(all.subrange(0, it.index() as int), searches@).len(),
            forall|i: int|
                0 <= i < failed@.len() ==> (#[trigger] failed@[i] matches SqlError::SearchNotExist(
                    id,
                ) && id == unstorable(all.subrange(0, it.index() as int), searches@)[i].search_id),
    {
        proof {
            let before = all.subrange(0, it.index() as int);
            assert(all.subrange(0, it.index() + 1) =~= before.push(entry));
            lemma_filter_push(
                before,
                |entry: ClientSearchResult| is_storable(entry, searches@),
                entry,
            );
            lemma_filter_push(
                before,
                |entry: ClientSearchResult| !is_storable(entry, searches@),
                entry,
            );
        }
        match find_search(searches, entry.search_id) {
            Some(_) => {
                stored.push(insert_client_search_result(client_id.as_str(), entry));
            },
            None => {
                failed.push(SqlError::SearchNotExist(entry.search_id));
            },
        }
    }
    assert(all.subrange(0, all.len() as int) =~= all);
    let message = results_notice(client_id.as_str(), count, failed.len());
    Some(Ingested { client: client_id, stored, failed, message })
}

/// A result whose search is not stored fails alone: what is stored of the
/// batch is what is stored of the batch without it.
pub proof fn lemma_unknown_search_fails_alone(
    batch: Seq<ClientSearchResult>,
    searches: Seq<SearchRow>,
    at: int,
)
    requires
        0 <= at < batch.len(),
        !is_storable(batch[at], searches),
    ensures
        storable(batch, searches) == storable(batch.remove(at), searches),
        unstorable(batch, searches).contains(batch[at]),
{
    lemma_filter_without_rejected(
        batch,
        |entry: ClientSearchResult| is_storable(entry, searches),
        at,
    );
    batch.lemma_filter_contains(|entry: ClientSearchResult| !is_storable(entry, searches), at);
}

/// A result whose search is stored is stored, whatever else the batch
/// holds.
pub proof fn lemma_known_search_is_stored(
    batch: Seq<ClientSearchResult>,
    searches: Seq<SearchRow>,
    at: int,
)
    requires
        0 <= at < batch.len(),
        is_storable(batch[at], searches),
    ensures
        storable(batch, searches).contains(batch[at]),
{
    batch.lemma_filter_contains(|entry: ClientSearchResult| is_storable(entry, searches), at);
}

} // verus!

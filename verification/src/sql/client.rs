use vstd::prelude::*;
use crate::constants::CREDENTIAL_LEN;
use crate::secrets::{bcrypt_verify, hash_password, is_alphanumeric, random_string, verify_password};
use crate::sql::SqlError;
use crate::text::str_eq;
use crate::time::Timestamp;

verus! {

/// An agent as it is stored. `token` is the hash of the agent's secret.
#[derive(Debug)]
pub struct ClientRecord {
    pub id: String,
    pub token: String,
    pub name: String,
    pub enabled: bool,
    pub created: Timestamp,
    pub lastconnect: Timestamp,
}

/// The position of the first agent of the given identifier.
pub open spec fn client_position(clients: Seq<ClientRecord>, id: Seq<char>) -> Option<int>
    decreases clients.len(),
{
    if clients.len() == 0 {
        None
    } else if clients[0].id@ == id {
        Some(0)
    } else {
        match client_position(clients.drop_first(), id) {
            Some(at) => Some(at + 1),
            None => None,
        }
    }
}

/// What `client_position` finds is the first agent of that identifier, and
/// it finds none only where there is none.
pub proof fn lemma_client_position(clients: Seq<ClientRecord>, id: Seq<char>)
    ensures
        match client_position(clients, id) {
            Some(at) => 0 <= at < clients.len() && clients[at].id@ == id && forall|j: int|
                0 <= j < at ==> (#[trigger] clients[j]).id@ != id,
            None => forall|j: int| 0 <= j < clients.len() ==> (#[trigger] clients[j]).id@ != id,
        },
    decreases clients.len(),
{
    if clients.len() > 0 && clients[0].id@ != id {
        let rest = clients.drop_first();
        lemma_client_position(rest, id);
        match client_position(rest, id) {
            Some(at) => {
                assert forall|j: int| 0 <= j < at + 1 implies (#[trigger] clients[j]).id@
                    != id by {
                    if j > 0 {
                        assert(rest[j - 1].id@ != id);
                    }
                }
            },
            None => {
                assert forall|j: int| 0 <= j < clients.len() implies (#[trigger] clients[j]).id@
                    != id by {
                    if j > 0 {
                        assert(rest[j - 1].id@ != id);
                    }
                }
            },
        }
    }
}

/// The first agent of the given identifier, if there is one.
pub fn find_client(clients: &Vec<ClientRecord>, id: &str) -> (at: Option<usize>)
    ensures
        at is Some <==> client_position(clients@, id@) is Some,
        at matches Some(i) ==> client_position(clients@, id@) == Some(i as int) && i
            < clients.len(),
{
    let mut i: usize = 0;
    proof {
        lemma_client_position(clients@, id@);
    }
    while i < clients.len()
        invariant
            0 <= i <= clients.len(),
            forall|j: int| 0 <= j < i ==> (#[trigger] clients@[j]).id@ != id@,
            match client_position(clients@, id@) {
                Some(at) => 0 <= at < clients.len() && clients@[at].id@ == id@ && forall|j: int|
                    0 <= j < at ==> (#[trigger] clients@[j]).id@ != id@,
                None => forall|j: int|
                    0 <= j < clients.len() ==> (#[trigger] clients@[j]).id@ != id@,
            },
        decreases clients.len() - i,
    {
        if str_eq(clients[i].id.as_str(), id) {
            return Some(i);
        }
        i += 1;
    }
    None
}

/// Whether the stored agents accept `token` as the secret of agent `id`:
/// the agent exists, is enabled, and the token is the one whose hash is
/// stored.
pub open spec fn client_accepts(clients: Seq<ClientRecord>, id: Seq<char>, token: Seq<char>) -> bool {
    client_position(clients, id) matches Some(at) && clients[at].enabled && bcrypt_verify(
        token,
        clients[at].token@,
    ) == Some(true)
}

/// Whether the stored agents refuse `token` for agent `id`: the agent
/// exists, but it is disabled or the token is not the one whose hash is
/// stored.
pub open spec fn client_refused(clients: Seq<ClientRecord>, id: Seq<char>, token: Seq<char>) -> bool {
    client_position(clients, id) matches Some(at) && (!clients[at].enabled || bcrypt_verify(
        token,
        clients[at].token@,
    ) == Some(false))
}

/// Whether the secret of agent `id` cannot be checked: the agent exists
/// and is enabled, but what is stored as the hash of its secret cannot be
/// read as one.
pub open spec fn client_unreadable(clients: Seq<ClientRecord>, id: Seq<char>, token: Seq<char>) -> bool {
    client_position(clients, id) matches Some(at) && clients[at].enabled && bcrypt_verify(
        token,
        clients[at].token@,
    ) is None
}

/// Checks the secret that an agent presents. An unknown agent is an error.
/// A disabled agent is refused like one with a wrong secret. Of an enabled
/// agent the secret is checked against the stored hash; where it is the
/// right one, the agent's last connection becomes `now`. Nothing else is
/// ever changed.
pub fn client_authenticate(
    clients: &mut Vec<ClientRecord>,
    id: &str,
    token: &str,
    now: Timestamp,
) -> (r: Result<bool, SqlError>)
    ensures
        match client_position(old(clients)@, id@) {
            None => (r matches Err(SqlError::ClientNotExist(who)) && who@ == id@) && final(clients)@ == old(clients)@,
            Some(at) => {
                let record = old(clients)@[at];
                if !record.enabled {
                    r matches Ok(false) && final(clients)@ == old(clients)@
                } else {
                    match bcrypt_verify(token@, record.token@) {
                        None => r matches Err(SqlError::Bcrypt(_)) && final(clients)@ == old(clients)@,
                        Some(false) => r matches Ok(false) && final(clients)@ == old(clients)@,
                        Some(true) => r matches Ok(true) && final(clients)@ == old(clients)@.update(at, ClientRecord { lastconnect: now, ..record }),
                    }
                }
            },
        },
        r matches Ok(true) <==> client_accepts(old(clients)@, id@, token@),
{
    match find_client(clients, id) {
        None => Err(SqlError::ClientNotExist(id.to_owned())),
        Some(at) => {
            if !clients[at].enabled {
                return Ok(false);
            }
            match verify_password(token, clients[at].token.as_str()) {
                Err(e) => Err(SqlError::Bcrypt(e)),
                Ok(valid) => {
                    if valid {
                        clients[at].lastconnect = now;
                    }
                    Ok(valid)
                },
            }
        },
    }
}

/// The identifier and the secret of a newly created agent. The secret is
/// handed out once, here, and is not stored.
#[derive(Debug)]
pub struct ClientAuth {
    pub id: String,
    pub token: String,
}

/// An agent as operators see it: without the hash of its secret.
#[derive(Debug)]
pub struct SLClient {
    pub id: String,
    pub name: String,
    pub enabled: bool,
    pub created: Timestamp,
    pub lastconnect: Timestamp,
}

/// When an agent last started a run, and whether an operator asked for a
/// run out of turn.
#[derive(Debug, Clone, Copy, PartialEq, Eq, Structural)]
pub struct ClientLastRun {
    pub lastrun: Timestamp,
    pub manualrun: bool,
}

impl ClientRecord {
    /// The agent as operators see it.
    pub open spec fn exposed(self) -> SLClient {
        SLClient {
            id: self.id,
            name: self.name,
            enabled: self.enabled,
            created: self.created,
            lastconnect: self.lastconnect,
        }
    }
}

/// Whether an agent of the given identifier is stored.
pub open spec fn has_client(clients: Seq<ClientRecord>, id: Seq<char>) -> bool {
    exists|j: int| 0 <= j < clients.len() && (#[trigger] clients[j]).id@ == id
}

/// Whether an agent of the given display name is stored.
pub open spec fn has_client_name(clients: Seq<ClientRecord>, name: Seq<char>) -> bool {
    exists|j: int| 0 <= j < clients.len() && (#[trigger] clients[j]).name@ == name
}

/// Whether no two stored agents share an identifier.
pub open spec fn ids_are_distinct(clients: Seq<ClientRecord>) -> bool {
    forall|i: int, j: int|
        0 <= i < j < clients.len() ==> (#[trigger] clients[i]).id@ != (#[trigger] clients[j]).id@
}

/// Whether an agent of the given identifier is stored.
pub fn client_exists(clients: &Vec<ClientRecord>, id: &str) -> (exists: bool)
    ensures
        exists == has_client(clients@, id@),
        exists == client_position(clients@, id@) is Some,
{
    proof {
        lemma_client_position(clients@, id@);
    }
    find_client(clients, id).is_some()
}

/// Whether an agent of the given display name is stored.
pub fn client_name_exists(clients: &Vec<ClientRecord>, name: &str) -> (exists: bool)
    ensures
        exists == has_client_name(clients@, name@),
{
    let mut i: usize = 0;
    while i < clients.len()
        invariant
            0 <= i <= clients.len(),
            forall|j: int| 0 <= j < i ==> (#[trigger] clients@[j]).name@ != name@,
        decreases clients.len() - i,
    {
        if str_eq(clients[i].name.as_str(), name) {
            return true;
        }
        i += 1;
    }
    false
}

/// The verdict on one identifier drawn for a new agent: it is taken as it
/// is exactly when no stored agent has it.
pub fn accept_client_id(clients: &Vec<ClientRecord>, candidate: String) -> (id: Option<String>)
    ensures
        id is Some <==> !has_client(clients@, candidate@),
        id matches Some(taken) ==> taken == candidate,
{
    if client_exists(clients, candidate.as_str()) {
        None
    } else {
        Some(candidate)
    }
}

/// Number of identifiers drawn for a new agent before giving up.
pub const ID_DRAWS: usize = 64;

/// Draws an identifier that no stored agent has, at random, giving up after
/// `ID_DRAWS` draws that hit a stored agent. It cannot fail where no stored
/// agent has an identifier that a draw can give: the first draw is taken.
pub fn fresh_client_id(clients: &Vec<ClientRecord>) -> (id: Option<String>)
    ensures
        id matches Some(fresh) ==> !has_client(clients@, fresh@) && fresh@.len() == CREDENTIAL_LEN
            && forall|i: int| 0 <= i < fresh@.len() ==> is_alphanumeric(#[trigger] fresh@[i]),
        !holds_drawable_id(clients@) ==> id is Some,
{
    let mut draws: usize = 0;
    while draws < ID_DRAWS
        invariant
            0 <= draws <= ID_DRAWS,
            !holds_drawable_id(clients@) ==> draws == 0,
        decreases ID_DRAWS - draws,
    {
        let candidate = random_string(CREDENTIAL_LEN);
        proof {
            if has_client(clients@, candidate@) {
                let j = choose|j: int|
                    0 <= j < clients@.len() && (#[trigger] clients@[j]).id@ == candidate@;
                assert(can_be_drawn(clients@[j].id@));
            }
        }
        match accept_client_id(clients, candidate) {
            Some(id) => {
                return Some(id);
            },
            None => {},
        }
        draws += 1;
    }
    None
}

/// Whether a draw can give `id`: it has the length of a credential and
/// holds letters and digits only.
pub open spec fn can_be_drawn(id: Seq<char>) -> bool {
    id.len() == CREDENTIAL_LEN && forall|i: int| 0 <= i < id.len() ==> is_alphanumeric(#[trigger] id[i])
}

/// Whether some stored agent has an identifier that a draw can give.
pub open spec fn holds_drawable_id(clients: Seq<ClientRecord>) -> bool {
    exists|j: int| 0 <= j < clients.len() && can_be_drawn((#[trigger] clients[j]).id@)
}

/// Adding an agent under an identifier that none has keeps the others
/// where they are found and keeps the identifiers distinct.
pub proof fn lemma_client_added(clients: Seq<ClientRecord>, record: ClientRecord, id: Seq<char>)
    requires
        !has_client(clients, record.id@),
    ensures
        client_position(clients.push(record), record.id@) == Some(clients.len() as int),
        id != record.id@ ==> client_position(clients.push(record), id) == client_position(
            clients,
            id,
        ),
        ids_are_distinct(clients) ==> ids_are_distinct(clients.push(record)),
    decreases clients.len(),
{
    let added = clients.push(record);
    if clients.len() == 0 {
        assert(added.drop_first() =~= clients);
    } else {
        let rest = clients.drop_first();
        assert(added.drop_first() =~= rest.push(record));
        assert(clients[0].id@ != record.id@);
        assert forall|j: int| 0 <= j < rest.len() implies (#[trigger] rest[j]).id@
            != record.id@ by {
            assert(clients[j + 1].id@ != record.id@);
        }
        lemma_client_added(rest, record, id);
    }
    if ids_are_distinct(clients) {
        assert forall|i: int, j: int| 0 <= i < j < added.len() implies (#[trigger] added[i]).id@ != (
        #[trigger] added[j]).id@ by {
            if j < clients.len() {
                assert(clients[i].id@ != clients[j].id@);
            } else {
                assert(clients[i].id@ != record.id@);
            }
        }
    }
}

/// Stores a new agent of the given display name, identifier and secret at
/// time `now`; `hash` is the hash of the secret. A display name that a
/// stored agent has is refused, and so is an identifier that a stored
/// agent has. The agent is stored enabled, after the stored ones, with
/// the hash and not the secret. The secret is handed back with the
/// identifier, together with the agent's first run bookkeeping: last run
/// at `now`, no run asked for.
pub fn register_client(
    clients: &mut Vec<ClientRecord>,
    name: &str,
    id: String,
    token: String,
    hash: String,
    now: Timestamp,
) -> (r: Result<(ClientAuth, ClientLastRun), SqlError>)
    ensures
        has_client_name(old(clients)@, name@) ==> (r matches Err(SqlError::ClientNameExists(n))
            && n@ == name@) && final(clients)@ == old(clients)@,
        !has_client_name(old(clients)@, name@) && has_client(old(clients)@, id@) ==> (r matches Err(
            SqlError::ClientCreateFailed,
        )) && final(clients)@ == old(clients)@,
        !has_client_name(old(clients)@, name@) && !has_client(old(clients)@, id@) ==> (r matches Ok(
            made,
        ) && made.0.id == id && made.0.token == token && made.1 == (ClientLastRun {
            lastrun: now,
            manualrun: false,
        }) && final(clients)@.len() == old(clients)@.len() + 1 && final(clients)@.drop_last()
            == old(clients)@ && final(clients)@.last().id == id && final(clients)@.last().token
            == hash && final(clients)@.last().name@ == name@ && final(clients)@.last().enabled
            && final(clients)@.last().created == now && final(clients)@.last().lastconnect == now),
        ids_are_distinct(old(clients)@) ==> ids_are_distinct(final(clients)@),
        r is Ok && bcrypt_verify(token@, hash@) == Some(true) ==> client_accepts(
            final(clients)@,
            id@,
            token@,
        ),
{
    if client_name_exists(clients, name) {
        return Err(SqlError::ClientNameExists(name.to_owned()));
    }
    if client_exists(clients, id.as_str()) {
        return Err(SqlError::ClientCreateFailed);
    }
    let record = ClientRecord {
        id: id.clone(),
        token: hash,
        name: name.to_owned(),
        enabled: true,
        created: now,
        lastconnect: now,
    };
    proof {
        lemma_client_added(clients@, record, id@);
        assert(clients@.push(record).drop_last() =~= clients@);
    }
    clients.push(record);
    Ok((ClientAuth { id, token }, ClientLastRun { lastrun: now, manualrun: false }))
}

/// Creates an agent of the given display name at time `now`. A display
/// name that a stored agent has is refused. Otherwise a secret and an
/// identifier are drawn at random, the identifier one that no stored agent
/// has, and the agent is stored as `register_client` stores it. Hashing
/// the secret and drawing the identifier can fail; then nothing is stored.
pub fn client_auth_create(clients: &mut Vec<ClientRecord>, name: &str, now: Timestamp) -> (r: Result<
    (ClientAuth, ClientLastRun),
    SqlError,
>)
    ensures
        has_client_name(old(clients)@, name@) ==> (r matches Err(SqlError::ClientNameExists(n))
            && n@ == name@),
        !has_client_name(old(clients)@, name@) ==> !(r matches Err(
            SqlError::ClientNameExists(_),
        )),
        r matches Err(e) ==> final(clients)@ == old(clients)@ && (e is ClientNameExists || e is Bcrypt
            || e is ClientCreateFailed),
        r matches Ok(made) ==> {
            let auth = made.0;
            let schedule = made.1;
            &&& schedule == (ClientLastRun { lastrun: now, manualrun: false })
            &&& !has_client(old(clients)@, auth.id@)
            &&& auth.id@.len() == CREDENTIAL_LEN
            &&& auth.token@.len() == CREDENTIAL_LEN
            &&& forall|i: int| 0 <= i < auth.id@.len() ==> is_alphanumeric(#[trigger] auth.id@[i])
            &&& forall|i: int|
                0 <= i < auth.token@.len() ==> is_alphanumeric(#[trigger] auth.token@[i])
            &&& final(clients)@.len() == old(clients)@.len() + 1
            &&& final(clients)@.drop_last() == old(clients)@
            &&& final(clients)@.last().id@ == auth.id@
            &&& final(clients)@.last().name@ == name@
            &&& final(clients)@.last().enabled
            &&& final(clients)@.last().created == now
            &&& final(clients)@.last().lastconnect == now
            &&& client_accepts(final(clients)@, auth.id@, auth.token@)
            &&& ids_are_distinct(old(clients)@) ==> ids_are_distinct(final(clients)@)
        },
{
    if client_name_exists(clients, name) {
        return Err(SqlError::ClientNameExists(name.to_owned()));
    }
    let token = random_string(CREDENTIAL_LEN);
    let hash = match hash_password(token.as_str()) {
        Ok(hash) => hash,
        Err(e) => {
            return Err(SqlError::Bcrypt(e));
        },
    };
    let id = match fresh_client_id(clients) {
        Some(id) => id,
        None => {
            return Err(SqlError::ClientCreateFailed);
        },
    };
    register_client(clients, name, id, token, hash, now)
}

/// The stored agents without those of the given identifier.
pub open spec fn without_client(clients: Seq<ClientRecord>, id: Seq<char>) -> Seq<ClientRecord> {
    clients.filter(|c: ClientRecord| c.id@ != id)
}

/// Removes the agent of the given identifier and says whether one was
/// there to remove.
pub fn delete_client(clients: &mut Vec<ClientRecord>, id: &str) -> (removed: bool)
    ensures
        final(clients)@ == without_client(old(clients)@, id@),
        removed == has_client(old(clients)@, id@),
        !has_client(final(clients)@, id@),
{
    let mut all: Vec<ClientRecord> = Vec::new();
    std::mem::swap(clients, &mut all);
    let ghost was = all@;
    let mut removed = false;
    proof {
        reveal(Seq::filter);
        assert(clients@ =~= without_client(was.subrange(0, 0), id@));
    }
    for record in it: all
        invariant
            it.seq() == was,
            clients@ == without_client(was.subrange(0, it.index() as int), id@),
            removed == has_client(was.subrange(0, it.index() as int), id@),
    {
        proof {
            reveal(Seq::filter);
            let upto = was.subrange(0, it.index() + 1);
            let before = was.subrange(0, it.index() as int);
            assert(upto.drop_last() =~= before);
            assert(upto.last() == record);
            if has_client(before, id@) {
                let j = choose|j: int| 0 <= j < before.len() && (#[trigger] before[j]).id@ == id@;
                assert(upto[j].id@ == id@);
            }
            if record.id@ == id@ {
                assert(upto[it.index() as int].id@ == id@);
            }
            if has_client(upto, id@) && record.id@ != id@ {
                let j = choose|j: int| 0 <= j < upto.len() && (#[trigger] upto[j]).id@ == id@;
                assert(before[j].id@ == id@);
            }
        }
        if str_eq(record.id.as_str(), id) {
            removed = true;
        } else {
            clients.push(record);
        }
    }
    proof {
        assert(was.subrange(0, was.len() as int) =~= was);
        lemma_deleted_client_is_gone(was, id@);
    }
    removed
}

/// After an agent is removed no agent of its identifier is left, so
/// removing it once more removes nothing.
pub proof fn lemma_deleted_client_is_gone(clients: Seq<ClientRecord>, id: Seq<char>)
    ensures
        !has_client(without_client(clients, id), id),
        without_client(without_client(clients, id), id) == without_client(clients, id),
    decreases clients.len(),
{
    reveal(Seq::filter);
    let left = without_client(clients, id);
    if clients.len() > 0 {
        let rest = clients.drop_last();
        lemma_deleted_client_is_gone(rest, id);
        let kept = without_client(rest, id);
        assert forall|j: int| 0 <= j < left.len() implies (#[trigger] left[j]).id@ != id by {
            if j < kept.len() {
                assert(kept[j].id@ != id);
            }
        }
    }
    lemma_nothing_to_delete(left, id);
}

/// Removing an agent that is not stored changes nothing.
pub proof fn lemma_nothing_to_delete(clients: Seq<ClientRecord>, id: Seq<char>)
    requires
        !has_client(clients, id),
    ensures
        without_client(clients, id) == clients,
    decreases clients.len(),
{
    reveal(Seq::filter);
    if clients.len() > 0 {
        let rest = clients.drop_last();
        assert forall|j: int| 0 <= j < rest.len() implies (#[trigger] rest[j]).id@ != id by {
            assert(clients[j].id@ != id);
        }
        assert(!has_client(rest, id));
        lemma_nothing_to_delete(rest, id);
        assert(clients[clients.len() - 1].id@ != id);
        assert(rest.push(clients.last()) =~= clients);
    }
}

/// The stored agents with those of the given identifier enabled or
/// disabled.
pub open spec fn with_client_enabled(
    clients: Seq<ClientRecord>,
    id: Seq<char>,
    enabled: bool,
) -> Seq<ClientRecord> {
    clients.map_values(
        |c: ClientRecord|
            if c.id@ == id {
                ClientRecord { enabled: enabled, ..c }
            } else {
                c
            },
    )
}

/// Enables or disables the agent of the given identifier. An identifier
/// that no agent has changes nothing.
pub fn client_set_enabled(clients: &mut Vec<ClientRecord>, id: &str, enabled: bool)
    ensures
        final(clients)@ == with_client_enabled(old(clients)@, id@, enabled),
{
    let mut i: usize = 0;
    while i < clients.len()
        invariant
            0 <= i <= clients.len(),
            clients@.len() == old(clients)@.len(),
            forall|j: int|
                0 <= j < i ==> clients@[j] == with_client_enabled(old(clients)@, id@, enabled)[j],
            forall|j: int| i <= j < clients.len() ==> clients@[j] == old(clients)@[j],
        decreases clients.len() - i,
    {
        if str_eq(clients[i].id.as_str(), id) {
            clients[i].enabled = enabled;
        }
        i += 1;
    }
    assert(clients@ =~= with_client_enabled(old(clients)@, id@, enabled));
}

/// Enabling or disabling an agent twice is the same as doing it once, and
/// moves no agent: each is found where it was.
pub proof fn lemma_set_enabled_is_idempotent(
    clients: Seq<ClientRecord>,
    id: Seq<char>,
    enabled: bool,
    other: Seq<char>,
)
    ensures
        with_client_enabled(with_client_enabled(clients, id, enabled), id, enabled)
            == with_client_enabled(clients, id, enabled),
        client_position(with_client_enabled(clients, id, enabled), other) == client_position(
            clients,
            other,
        ),
    decreases clients.len(),
{
    let once = with_client_enabled(clients, id, enabled);
    assert(with_client_enabled(once, id, enabled) =~= once);
    if clients.len() > 0 {
        lemma_set_enabled_is_idempotent(clients.drop_first(), id, enabled, other);
        assert(once.drop_first() =~= with_client_enabled(clients.drop_first(), id, enabled));
    }
}

/// Once an agent is disabled, no secret authenticates it, the right one
/// neither.
pub proof fn lemma_disabled_client_is_refused(
    clients: Seq<ClientRecord>,
    id: Seq<char>,
    token: Seq<char>,
)
    ensures
        !client_accepts(with_client_enabled(clients, id, false), id, token),
{
    let after = with_client_enabled(clients, id, false);
    lemma_set_enabled_is_idempotent(clients, id, false, id);
    lemma_client_position(after, id);
}

/// Whether the agent of the given identifier is enabled. An agent that is
/// not stored is not enabled.
pub fn client_enabled(clients: &Vec<ClientRecord>, id: &str) -> (enabled: bool)
    ensures
        enabled == match client_position(clients@, id@) {
            Some(at) => clients@[at].enabled,
            None => false,
        },
{
    match find_client(clients, id) {
        Some(at) => clients[at].enabled,
        None => false,
    }
}

/// The stored agents as operators see them, in the stored order. The hash
/// of an agent's secret is not among what is shown.
pub fn get_clients(clients: &Vec<ClientRecord>) -> (listed: Vec<SLClient>)
    ensures
        listed@ == clients@.map_values(|c: ClientRecord| c.exposed()),
{
    let mut listed: Vec<SLClient> = Vec::new();
    let mut i: usize = 0;
    while i < clients.len()
        invariant
            0 <= i <= clients.len(),
            listed@ == clients@.subrange(0, i as int).map_values(|c: ClientRecord| c.exposed()),
        decreases clients.len() - i,
    {
        let ghost before = listed@;
        let record = &clients[i];
        listed.push(
            SLClient {
                id: record.id.clone(),
                name: record.name.clone(),
                enabled: record.enabled,
                created: record.created,
                lastconnect: record.lastconnect,
            },
        );
        assert(listed@ =~= clients@.subrange(0, i + 1).map_values(
            |c: ClientRecord| c.exposed(),
        ));
        i += 1;
    }
    assert(clients@.subrange(0, i as int) =~= clients@);
    listed
}

/// The display names of the stored agents, in the stored order.
pub fn get_client_names(clients: &Vec<ClientRecord>) -> (names: Vec<String>)
    ensures
        names@ == clients@.map_values(|c: ClientRecord| c.name),
{
    let mut names: Vec<String> = Vec::new();
    let mut i: usize = 0;
    while i < clients.len()
        invariant
            0 <= i <= clients.len(),
            names@ == clients@.subrange(0, i as int).map_values(|c: ClientRecord| c.name),
        decreases clients.len() - i,
    {
        names.push(clients[i].name.clone());
        assert(names@ =~= clients@.subrange(0, i + 1).map_values(|c: ClientRecord| c.name));
        i += 1;
    }
    assert(clients@.subrange(0, i as int) =~= clients@);
    names
}

/// An agent's run bookkeeping as it is stored. The flag may be missing.
#[derive(Debug, Clone, Copy, PartialEq, Eq, Structural)]
pub struct LastRunRow {
    pub lastrun: Timestamp,
    pub manualrun: Option<bool>,
}

/// The run bookkeeping of agent `id` from its stored row. A missing flag
/// counts as unset. Without a row the agent is unknown.
pub fn get_client_last_run(id: &str, row: Option<LastRunRow>) -> (r: Result<ClientLastRun, SqlError>)
    ensures
        match row {
            Some(stored) => r == Ok::<ClientLastRun, SqlError>(
                ClientLastRun {
                    lastrun: stored.lastrun,
                    manualrun: stored.manualrun == Some(true),
                },
            ),
            None => r matches Err(SqlError::ClientNotExist(who)) && who@ == id@,
        },
{
    match row {
        Some(stored) => Ok(
            ClientLastRun {
                lastrun: stored.lastrun,
                manualrun: match stored.manualrun {
                    Some(flag) => flag,
                    None => false,
                },
            },
        ),
        None => Err(SqlError::ClientNotExist(id.to_owned())),
    }
}

/// The run bookkeeping of an agent that starts a run at `dt`: the run is
/// recorded, and a run that was asked for is no longer owed.
pub fn set_client_last_run(dt: Timestamp) -> (next: ClientLastRun)
    ensures
        next == (ClientLastRun { lastrun: dt, manualrun: false }),
{
    ClientLastRun { lastrun: dt, manualrun: false }
}

/// The run bookkeeping of an agent after an operator asked for a run out
/// of turn.
pub fn set_client_manual_run(current: ClientLastRun) -> (next: ClientLastRun)
    ensures
        next == (ClientLastRun { lastrun: current.lastrun, manualrun: true }),
{
    ClientLastRun { lastrun: current.lastrun, manualrun: true }
}

} // verus!

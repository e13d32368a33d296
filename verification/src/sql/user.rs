use vstd::prelude::*;
use crate::secrets::{bcrypt_verify, hash_password, verify_password};
use crate::sql::SqlError;
use crate::text::str_eq;
use crate::time::Timestamp;

verus! {

/// An operator as it is stored. `passwd` is the hash of the password.
#[derive(Debug)]
pub struct UserRecord {
    pub username: String,
    pub passwd: String,
    pub lastlogin: Option<Timestamp>,
    pub enabled: bool,
}

/// The position of the first operator of the given name.
pub open spec fn user_position(users: Seq<UserRecord>, username: Seq<char>) -> Option<int>
    decreases users.len(),
{
    if users.len() == 0 {
        None
    } else if users[0].username@ == username {
        Some(0)
    } else {
        match user_position(users.drop_first(), username) {
            Some(at) => Some(at + 1),
            None => None,
        }
    }
}

/// Whether an operator of the given name is stored.
pub open spec fn has_user(users: Seq<UserRecord>, username: Seq<char>) -> bool {
    exists|j: int| 0 <= j < users.len() && (#[trigger] users[j]).username@ == username
}

/// What `user_position` finds is the first operator of that name, and it
/// finds none only where there is none.
pub proof fn lemma_user_position(users: Seq<UserRecord>, username: Seq<char>)
    ensures
        match user_position(users, username) {
            Some(at) => 0 <= at < users.len() && users[at].username@ == username && forall|j: int|
                0 <= j < at ==> (#[trigger] users[j]).username@ != username,
            None => forall|j: int| 0 <= j < users.len() ==> (#[trigger] users[j]).username@
                != username,
        },
        user_position(users, username) is Some <==> has_user(users, username),
    decreases users.len(),
{
    if users.len() > 0 && users[0].username@ != username {
        let rest = users.drop_first();
        lemma_user_position(rest, username);
        match user_position(rest, username) {
            Some(at) => {
                assert forall|j: int| 0 <= j < at + 1 implies (#[trigger] users[j]).username@
                    != username by {
                    if j > 0 {
                        assert(rest[j - 1].username@ != username);
                    }
                }
                assert(users[at + 1].username@ == username);
            },
            None => {
                assert forall|j: int| 0 <= j < users.len() implies (#[trigger] users[j]).username@
                    != username by {
                    if j > 0 {
                        assert(rest[j - 1].username@ != username);
                    }
                }
            },
        }
    }
}

/// The first operator of the given name, if there is one.
pub fn find_user(users: &Vec<UserRecord>, username: &str) -> (at: Option<usize>)
    ensures
        at is Some <==> user_position(users@, username@) is Some,
        at matches Some(i) ==> user_position(users@, username@) == Some(i as int) && i
            < users.len(),
{
    let mut i: usize = 0;
    proof {
        lemma_user_position(users@, username@);
    }
    while i < users.len()
        invariant
            0 <= i <= users.len(),
            forall|j: int| 0 <= j < i ==> (#[trigger] users@[j]).username@ != username@,
            match user_position(users@, username@) {
                Some(at) => 0 <= at < users.len() && users@[at].username@ == username@
                    && forall|j: int| 0 <= j < at ==> (#[trigger] users@[j]).username@ != username@,
                None => forall|j: int|
                    0 <= j < users.len() ==> (#[trigger] users@[j]).username@ != username@,
            },
        decreases users.len() - i,
    {
        if str_eq(users[i].username.as_str(), username) {
            return Some(i);
        }
        i += 1;
    }
    None
}

/// Whether the stored operators accept `passwd` as the password of
/// `username`: the operator exists, is enabled, and the password is the
/// one whose hash is stored.
pub open spec fn user_accepts(users: Seq<UserRecord>, username: Seq<char>, passwd: Seq<char>) -> bool {
    user_position(users, username) matches Some(at) && users[at].enabled && bcrypt_verify(
        passwd,
        users[at].passwd@,
    ) == Some(true)
}

/// Whether the stored operators refuse `passwd` for `username`: the
/// operator exists, but it is disabled or the password is not the one
/// whose hash is stored.
pub open spec fn user_refused(users: Seq<UserRecord>, username: Seq<char>, passwd: Seq<char>) -> bool {
    user_position(users, username) matches Some(at) && (!users[at].enabled || bcrypt_verify(
        passwd,
        users[at].passwd@,
    ) == Some(false))
}

/// Whether the password of `username` cannot be checked: the operator
/// exists and is enabled, but what is stored as the hash of its password
/// cannot be read as one.
pub open spec fn user_unreadable(users: Seq<UserRecord>, username: Seq<char>, passwd: Seq<char>) -> bool {
    user_position(users, username) matches Some(at) && users[at].enabled && bcrypt_verify(
        passwd,
        users[at].passwd@,
    ) is None
}

/// Checks the password that an operator presents. An unknown operator is
/// an error. A disabled operator is refused like one with a wrong
/// password. Of an enabled operator the password is checked against the
/// stored hash; where it is the right one, the operator's last login
/// becomes `now`. Nothing else is ever changed.
pub fn user_login(users: &mut Vec<UserRecord>, username: &str, passwd: &str, now: Timestamp) -> (r:
    Result<bool, SqlError>)
    ensures
        match user_position(old(users)@, username@) {
            None => r matches Err(SqlError::UserNotExist) && final(users)@ == old(users)@,
            Some(at) => {
                let record = old(users)@[at];
                if !record.enabled {
                    r matches Ok(false) && final(users)@ == old(users)@
                } else {
                    match bcrypt_verify(passwd@, record.passwd@) {
                        None => r matches Err(SqlError::Bcrypt(_)) && final(users)@ == old(users)@,
                        Some(false) => r matches Ok(false) && final(users)@ == old(users)@,
                        Some(true) => r matches Ok(true) && final(users)@ == old(users)@.update(
                            at,
                            UserRecord { lastlogin: Some(now), ..record },
                        ),
                    }
                }
            },
        },
        r matches Ok(true) <==> user_accepts(old(users)@, username@, passwd@),
{
    match find_user(users, username) {
        None => Err(SqlError::UserNotExist),
        Some(at) => {
            if !users[at].enabled {
                return Ok(false);
            }
            match verify_password(passwd, users[at].passwd.as_str()) {
                Err(e) => Err(SqlError::Bcrypt(e)),
                Ok(valid) => {
                    if valid {
                        users[at].lastlogin = Some(now);
                    }
                    Ok(valid)
                },
            }
        },
    }
}

/// The stored operators with those of the given name enabled or disabled.
pub open spec fn with_user_enabled(
    users: Seq<UserRecord>,
    username: Seq<char>,
    enabled: bool,
) -> Seq<UserRecord> {
    users.map_values(
        |u: UserRecord|
            if u.username@ == username {
                UserRecord { enabled: enabled, ..u }
            } else {
                u
            },
    )
}

/// Enables or disables the operator of the given name. It is an error if
/// there is no such operator.
pub fn user_set_enabled(users: &mut Vec<UserRecord>, username: &str, enabled: bool) -> (r: Result<
    (),
    SqlError,
>)
    ensures
        final(users)@ == with_user_enabled(old(users)@, username@, enabled),
        r is Ok <==> has_user(old(users)@, username@),
        r matches Err(e) ==> e is UserNotExist,
{
    let mut i: usize = 0;
    let mut found = false;
    while i < users.len()
        invariant
            0 <= i <= users.len(),
            users@.len() == old(users)@.len(),
            forall|j: int|
                0 <= j < i ==> users@[j] == with_user_enabled(old(users)@, username@, enabled)[j],
            forall|j: int| i <= j < users.len() ==> users@[j] == old(users)@[j],
            found == has_user(old(users)@.subrange(0, i as int), username@),
        decreases users.len() - i,
    {
        let ghost before = old(users)@.subrange(0, i as int);
        let ghost upto = old(users)@.subrange(0, i + 1);
        proof {
            if has_user(before, username@) {
                let j = choose|j: int|
                    0 <= j < before.len() && (#[trigger] before[j]).username@ == username@;
                assert(upto[j].username@ == username@);
            }
            if has_user(upto, username@) && old(users)@[i as int].username@ != username@ {
                let j = choose|j: int|
                    0 <= j < upto.len() && (#[trigger] upto[j]).username@ == username@;
                assert(before[j].username@ == username@);
            }
        }
        if str_eq(users[i].username.as_str(), username) {
            users[i].enabled = enabled;
            found = true;
            assert(upto[i as int].username@ == username@);
        }
        i += 1;
    }
    assert(users@ =~= with_user_enabled(old(users)@, username@, enabled));
    assert(old(users)@.subrange(0, i as int) =~= old(users)@);
    if found {
        Ok(())
    } else {
        Err(SqlError::UserNotExist)
    }
}

/// Whether the operator of the given name is enabled. It is an error if
/// there is no such operator.
pub fn user_enabled(users: &Vec<UserRecord>, username: &str) -> (r: Result<bool, SqlError>)
    ensures
        match user_position(users@, username@) {
            Some(at) => r == Ok::<bool, SqlError>(users@[at].enabled),
            None => r matches Err(SqlError::UserNotExist),
        },
{
    match find_user(users, username) {
        Some(at) => Ok(users[at].enabled),
        None => Err(SqlError::UserNotExist),
    }
}

/// Stores a new operator of the given name; `hash` is the hash of the
/// password. A name that a stored operator has is refused. The operator is
/// stored enabled, after the stored ones, and has never logged in.
pub fn register_user(users: &mut Vec<UserRecord>, username: &str, hash: String) -> (r: Result<
    (),
    SqlError,
>)
    ensures
        r is Err <==> has_user(old(users)@, username@),
        r matches Err(e) ==> e is UserCreateFailed && final(users)@ == old(users)@,
        r is Ok ==> {
            &&& final(users)@.len() == old(users)@.len() + 1
            &&& final(users)@.drop_last() == old(users)@
            &&& final(users)@.last().username@ == username@
            &&& final(users)@.last().passwd == hash
            &&& final(users)@.last().enabled
            &&& final(users)@.last().lastlogin is None
        },
{
    proof {
        lemma_user_position(users@, username@);
    }
    if find_user(users, username).is_some() {
        return Err(SqlError::UserCreateFailed);
    }
    let record = UserRecord {
        username: username.to_owned(),
        passwd: hash,
        lastlogin: None,
        enabled: true,
    };
    assert(users@.push(record).drop_last() =~= users@);
    users.push(record);
    Ok(())
}

/// Creates an operator with the given password and stores it as
/// `register_user` stores it, with the hash of the password. A name that a
/// stored operator has is refused. Hashing the password can fail; then
/// nothing is stored.
pub fn user_create(users: &mut Vec<UserRecord>, username: &str, password: &str) -> (r: Result<
    (),
    SqlError,
>)
    ensures
        has_user(old(users)@, username@) ==> r matches Err(SqlError::UserCreateFailed),
        !has_user(old(users)@, username@) ==> !(r matches Err(SqlError::UserCreateFailed)),
        r matches Err(e) ==> final(users)@ == old(users)@ && (e is UserCreateFailed || e is Bcrypt),
        r is Ok ==> {
            &&& final(users)@.len() == old(users)@.len() + 1
            &&& final(users)@.drop_last() == old(users)@
            &&& final(users)@.last().username@ == username@
            &&& final(users)@.last().enabled
            &&& final(users)@.last().lastlogin is None
            &&& bcrypt_verify(password@, final(users)@.last().passwd@) == Some(true)
        },
{
    proof {
        lemma_user_position(users@, username@);
    }
    if find_user(users, username).is_some() {
        return Err(SqlError::UserCreateFailed);
    }
    let hash = match hash_password(password) {
        Ok(hash) => hash,
        Err(e) => {
            return Err(SqlError::Bcrypt(e));
        },
    };
    register_user(users, username, hash)
}

/// Whether any operator is stored.
pub fn has_users(users: &Vec<UserRecord>) -> (any: bool)
    ensures
        any == (users@.len() > 0),
{
    users.len() > 0
}

/// Once an operator is disabled, no password logs it in, the right one
/// neither.
pub proof fn lemma_disabled_user_is_refused(
    users: Seq<UserRecord>,
    username: Seq<char>,
    passwd: Seq<char>,
)
    ensures
        !user_accepts(with_user_enabled(users, username, false), username, passwd),
{
    let after = with_user_enabled(users, username, false);
    lemma_user_position(after, username);
}

} // verus!

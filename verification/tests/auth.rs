use securelog::sql::client::{
    client_auth_create, client_authenticate, client_enabled, client_exists, client_name_exists,
    client_set_enabled, delete_client, find_client, fresh_client_id, get_client_names,
    get_clients, accept_client_id, register_client, ClientLastRun, ClientRecord,
};
use securelog::sql::user::{
    find_user, has_users, register_user, user_create, user_enabled, user_login,
    user_set_enabled, UserRecord,
};
use securelog::sql::SqlError;
use securelog::time::Timestamp;
use securelog::web::client::{api_client_create, api_client_login, api_client_set_enabled, LoginReply};
use securelog::web::user::{api_user_login, UserLoginReply};
use securelog::web::{
    client_identity, client_logged_in, login_redirect, principal, user_identity, user_logged_in,
    Principal,
};

const PASSWORD_HASH: &str = "$2a$04$UuTkLRZZ6QofpDOlMz32MuuxEHA43WOemOYHPz6.SjsVsyO1tDU96";

fn at(secs: i64) -> Timestamp {
    Timestamp::new(secs, 0)
}

fn agent(id: &str, name: &str, enabled: bool) -> ClientRecord {
    ClientRecord {
        id: id.to_string(),
        token: PASSWORD_HASH.to_string(),
        name: name.to_string(),
        enabled,
        created: at(100),
        lastconnect: at(100),
    }
}

fn operator(name: &str, enabled: bool) -> UserRecord {
    UserRecord {
        username: name.to_string(),
        passwd: PASSWORD_HASH.to_string(),
        lastlogin: None,
        enabled,
    }
}

#[test]
fn unknown_agent_is_an_error() {
    let mut clients = vec![agent("a1", "one", true)];
    match client_authenticate(&mut clients, "zz", "password", at(200)) {
        Err(SqlError::ClientNotExist(id)) => assert_eq!(id, "zz"),
        other => panic!("unexpected {:?}", other),
    }
    assert_eq!(clients[0].lastconnect, at(100));
    let mut none: Vec<ClientRecord> = Vec::new();
    assert!(matches!(
        client_authenticate(&mut none, "a1", "password", at(200)),
        Err(SqlError::ClientNotExist(_))
    ));
}

#[test]
fn right_secret_authenticates_and_records_the_connection() {
    let mut clients = vec![agent("a0", "zero", true), agent("a1", "one", true)];
    assert!(client_authenticate(&mut clients, "a1", "password", at(200)).unwrap());
    assert_eq!(clients[1].lastconnect, at(200));
    assert_eq!(clients[0].lastconnect, at(100));
    assert_eq!(clients[1].created, at(100));
    assert!(clients[1].enabled);
    assert_eq!(clients[1].token, PASSWORD_HASH);
}

#[test]
fn wrong_secret_is_refused_and_changes_nothing() {
    let mut clients = vec![agent("a1", "one", true)];
    assert!(!client_authenticate(&mut clients, "a1", "Password", at(200)).unwrap());
    assert!(!client_authenticate(&mut clients, "a1", "", at(200)).unwrap());
    assert_eq!(clients[0].lastconnect, at(100));
}

#[test]
fn disabled_agent_is_refused_even_with_the_right_secret() {
    let mut clients = vec![agent("a1", "one", false)];
    assert!(!client_authenticate(&mut clients, "a1", "password", at(200)).unwrap());
    assert_eq!(clients[0].lastconnect, at(100));
}

#[test]
fn unreadable_hash_is_an_error() {
    let mut clients = vec![agent("a1", "one", true)];
    clients[0].token = "not a hash".to_string();
    assert!(matches!(
        client_authenticate(&mut clients, "a1", "password", at(200)),
        Err(SqlError::Bcrypt(_))
    ));
    assert_eq!(clients[0].lastconnect, at(100));
}

#[test]
fn disabling_keeps_the_session_but_fails_the_next_login() {
    let mut clients = vec![agent("a1", "one", true)];
    let reply = api_client_login(None, &mut clients, "a1", "password", at(200)).unwrap();
    let identity = match reply {
        LoginReply::LoggedIn(identity) => identity,
        other => panic!("unexpected {:?}", other),
    };
    assert_eq!(identity, "client:a1");
    client_set_enabled(&mut clients, "a1", false);
    assert_eq!(client_logged_in(Some(identity.as_str())), Some("a1".to_string()));
    assert!(!client_authenticate(&mut clients, "a1", "password", at(300)).unwrap());
    let again = api_client_login(None, &mut clients, "a1", "password", at(300)).unwrap();
    assert!(matches!(again, LoginReply::Failed));
    assert_eq!(clients[0].lastconnect, at(200));
}

#[test]
fn login_with_a_session_changes_nothing() {
    let mut clients = vec![agent("a1", "one", true)];
    let reply = api_client_login(Some("client:a1"), &mut clients, "a1", "password", at(200));
    assert!(matches!(reply, Ok(LoginReply::AlreadyLoggedIn)));
    assert_eq!(clients[0].lastconnect, at(100));
}

#[test]
fn unknown_agent_and_wrong_secret_fail_alike_at_login() {
    let mut clients = vec![agent("a1", "one", true)];
    let unknown = api_client_login(None, &mut clients, "zz", "password", at(200)).unwrap();
    assert!(matches!(unknown, LoginReply::Failed));
    let wrong = api_client_login(None, &mut clients, "a1", "nope", at(200)).unwrap();
    assert!(matches!(wrong, LoginReply::Failed));
    let operator_session =
        api_client_login(Some("user:root"), &mut clients, "a1", "nope", at(200)).unwrap();
    assert!(matches!(operator_session, LoginReply::Failed));
}

#[test]
fn created_agent_authenticates_with_its_secret() {
    let mut clients = vec![agent("a1", "one", true)];
    let (auth, schedule) = client_auth_create(&mut clients, "two", at(500)).unwrap();
    assert_eq!(schedule, ClientLastRun { lastrun: at(500), manualrun: false });
    assert_eq!(auth.id.len(), 32);
    assert_eq!(auth.token.len(), 32);
    assert!(auth.id.chars().all(|c| c.is_ascii_alphanumeric()));
    assert!(auth.token.chars().all(|c| c.is_ascii_alphanumeric()));
    assert_eq!(clients.len(), 2);
    assert_eq!(clients[0].id, "a1");
    assert_eq!(clients[1].id, auth.id);
    assert_eq!(clients[1].name, "two");
    assert!(clients[1].enabled);
    assert_eq!(clients[1].created, at(500));
    assert_eq!(clients[1].lastconnect, at(500));
    assert_ne!(clients[1].token, auth.token);
    assert!(client_authenticate(&mut clients, &auth.id, &auth.token, at(600)).unwrap());
    assert_eq!(clients[1].lastconnect, at(600));
}

#[test]
fn taken_display_name_is_refused() {
    let mut clients = vec![agent("a1", "one", true)];
    match client_auth_create(&mut clients, "one", at(500)) {
        Err(SqlError::ClientNameExists(name)) => assert_eq!(name, "one"),
        other => panic!("unexpected {:?}", other.map(|m| m.0)),
    }
    assert_eq!(clients.len(), 1);
}

#[test]
fn fresh_identifier_is_not_a_stored_one() {
    let clients = vec![agent("a1", "one", true)];
    let id = fresh_client_id(&clients).expect("an identifier");
    assert_eq!(id.len(), 32);
    assert!(!client_exists(&clients, &id));
    let other = fresh_client_id(&clients).expect("an identifier");
    assert_ne!(id, other);
    assert_eq!(accept_client_id(&clients, "a1".to_string()), None);
    assert_eq!(accept_client_id(&clients, "a2".to_string()), Some("a2".to_string()));
}

#[test]
fn lookups_find_the_first_match() {
    let clients = vec![agent("a1", "one", false), agent("a2", "two", true), agent("a1", "x", true)];
    assert_eq!(find_client(&clients, "a1"), Some(0));
    assert_eq!(find_client(&clients, "a2"), Some(1));
    assert_eq!(find_client(&clients, "a3"), None);
    assert!(client_exists(&clients, "a2"));
    assert!(!client_exists(&clients, "A2"));
    assert!(client_name_exists(&clients, "x"));
    assert!(!client_name_exists(&clients, "a1"));
    assert!(!client_enabled(&clients, "a1"));
    assert!(client_enabled(&clients, "a2"));
    assert!(!client_enabled(&clients, "a3"));
    assert_eq!(get_client_names(&clients), vec!["one", "two", "x"]);
}

#[test]
fn listing_shows_agents_without_their_secret() {
    let clients = vec![agent("a1", "one", false), agent("a2", "two", true)];
    let listed = get_clients(&clients);
    assert_eq!(listed.len(), 2);
    assert_eq!(listed[0].id, "a1");
    assert_eq!(listed[0].name, "one");
    assert!(!listed[0].enabled);
    assert_eq!(listed[0].created, at(100));
    assert_eq!(listed[0].lastconnect, at(100));
    assert_eq!(listed[1].id, "a2");
    assert!(listed[1].enabled);
    assert!(!format!("{:?}", listed).contains(PASSWORD_HASH));
}

#[test]
fn enabling_and_disabling_is_idempotent() {
    let mut clients = vec![agent("a1", "one", true), agent("a2", "two", true)];
    client_set_enabled(&mut clients, "a1", false);
    assert!(!clients[0].enabled);
    assert!(clients[1].enabled);
    client_set_enabled(&mut clients, "a1", false);
    assert!(!clients[0].enabled);
    assert!(clients[1].enabled);
    client_set_enabled(&mut clients, "a1", true);
    client_set_enabled(&mut clients, "a1", true);
    assert!(clients[0].enabled);
    client_set_enabled(&mut clients, "zz", false);
    assert!(clients[0].enabled && clients[1].enabled);
    assert_eq!(clients.len(), 2);
}

#[test]
fn deleting_is_idempotent_and_says_whether_it_removed() {
    let mut clients = vec![agent("a1", "one", true), agent("a2", "two", true), agent("a3", "three", true)];
    assert!(delete_client(&mut clients, "a2"));
    assert_eq!(get_client_names(&clients), vec!["one", "three"]);
    assert!(!delete_client(&mut clients, "a2"));
    assert_eq!(get_client_names(&clients), vec!["one", "three"]);
    assert!(!delete_client(&mut clients, "zz"));
    assert!(delete_client(&mut clients, "a1"));
    assert!(delete_client(&mut clients, "a3"));
    assert!(clients.is_empty());
    assert!(!delete_client(&mut clients, "a3"));
}

#[test]
fn only_operators_enable_and_disable_agents() {
    let mut clients = vec![agent("a1", "one", true)];
    assert!(!api_client_set_enabled(None, &mut clients, "a1", Some(false)));
    assert!(!api_client_set_enabled(Some("client:a1"), &mut clients, "a1", Some(false)));
    assert!(clients[0].enabled);
    assert!(api_client_set_enabled(Some("user:root"), &mut clients, "a1", None));
    assert!(!clients[0].enabled);
    assert!(api_client_set_enabled(Some("user:root"), &mut clients, "a1", Some(true)));
    assert!(clients[0].enabled);
}

#[test]
fn operator_login_follows_the_same_shape() {
    let mut users = vec![operator("root", true), operator("off", false)];
    assert!(matches!(
        user_login(&mut users, "nobody", "password", at(200)),
        Err(SqlError::UserNotExist)
    ));
    assert!(!user_login(&mut users, "off", "password", at(200)).unwrap());
    assert!(!user_login(&mut users, "root", "wrong", at(200)).unwrap());
    assert_eq!(users[0].lastlogin, None);
    assert!(user_login(&mut users, "root", "password", at(200)).unwrap());
    assert_eq!(users[0].lastlogin, Some(at(200)));
    assert_eq!(users[1].lastlogin, None);
    users[0].passwd = "garbage".to_string();
    assert!(matches!(
        user_login(&mut users, "root", "password", at(300)),
        Err(SqlError::Bcrypt(_))
    ));
}

#[test]
fn operators_are_created_enabled_and_once() {
    let mut users: Vec<UserRecord> = Vec::new();
    assert!(!has_users(&users));
    user_create(&mut users, "root", "s3cret").unwrap();
    assert!(has_users(&users));
    assert_eq!(users[0].username, "root");
    assert!(users[0].enabled);
    assert_eq!(users[0].lastlogin, None);
    assert_ne!(users[0].passwd, "s3cret");
    assert!(matches!(
        user_create(&mut users, "root", "other"),
        Err(SqlError::UserCreateFailed)
    ));
    assert_eq!(users.len(), 1);
    assert!(user_login(&mut users, "root", "s3cret", at(10)).unwrap());
}

#[test]
fn operators_are_enabled_and_disabled_by_name() {
    let mut users = vec![operator("root", true)];
    assert_eq!(user_enabled(&users, "root").unwrap(), true);
    assert!(matches!(user_enabled(&users, "nobody"), Err(SqlError::UserNotExist)));
    assert!(user_set_enabled(&mut users, "root", false).is_ok());
    assert_eq!(user_enabled(&users, "root").unwrap(), false);
    assert!(!user_login(&mut users, "root", "password", at(10)).unwrap());
    assert!(matches!(
        user_set_enabled(&mut users, "nobody", true),
        Err(SqlError::UserNotExist)
    ));
    assert!(user_set_enabled(&mut users, "root", true).is_ok());
    assert!(user_login(&mut users, "root", "password", at(10)).unwrap());
}

#[test]
fn operator_login_redirects_within_the_site_only() {
    let mut users = vec![operator("root", true)];
    let asked = Some("/clients".to_string());
    match api_user_login(&mut users, "root", "password", &asked, at(10)).unwrap() {
        UserLoginReply::LoggedIn { identity, location } => {
            assert_eq!(identity, "user:root");
            assert_eq!(location, "/clients");
        }
        other => panic!("unexpected {:?}", other),
    }
    let outside = Some("https://elsewhere.example/".to_string());
    match api_user_login(&mut users, "root", "password", &outside, at(10)).unwrap() {
        UserLoginReply::LoggedIn { location, .. } => assert_eq!(location, "/"),
        other => panic!("unexpected {:?}", other),
    }
    let failed = api_user_login(&mut users, "root", "wrong", &asked, at(10)).unwrap();
    assert!(matches!(failed, UserLoginReply::Failed));
    let unknown = api_user_login(&mut users, "nobody", "password", &asked, at(10)).unwrap();
    assert!(matches!(unknown, UserLoginReply::Failed));
    assert_eq!(login_redirect(&None), "/");
    assert_eq!(login_redirect(&Some(String::new())), "/");
    assert_eq!(login_redirect(&Some("/".to_string())), "/");
    assert_eq!(login_redirect(&Some("x/".to_string())), "/");
}

#[test]
fn agents_are_created_for_operators_only() {
    let mut users = vec![operator("root", true)];
    let mut clients: Vec<ClientRecord> = Vec::new();
    let refused =
        api_client_create(&mut users, &mut clients, "root", "wrong", "agent", at(10)).unwrap();
    assert!(refused.is_none());
    assert!(clients.is_empty());
    assert!(matches!(
        api_client_create(&mut users, &mut clients, "nobody", "password", "agent", at(10)),
        Err(SqlError::UserNotExist)
    ));
    let (auth, _) = api_client_create(&mut users, &mut clients, "root", "password", "agent", at(10))
        .unwrap()
        .expect("an agent");
    assert_eq!(clients.len(), 1);
    assert_eq!(clients[0].id, auth.id);
    assert_eq!(clients[0].name, "agent");
}

#[test]
fn session_identity_tells_agents_from_operators() {
    assert_eq!(client_identity("a1"), "client:a1");
    assert_eq!(user_identity("root"), "user:root");
    assert_eq!(client_logged_in(Some("client:a1")), Some("a1".to_string()));
    assert_eq!(client_logged_in(Some("client:")), Some(String::new()));
    assert_eq!(client_logged_in(Some("user:root")), None);
    assert_eq!(client_logged_in(Some("a1")), None);
    assert_eq!(client_logged_in(None), None);
    assert_eq!(user_logged_in(Some("user:root")), Some("root".to_string()));
    assert_eq!(user_logged_in(Some("client:a1")), None);
    assert_eq!(user_logged_in(None), None);
    assert_eq!(user_logged_in(Some("xuser:root")), None);
    assert!(matches!(principal("client:a1"), Some(Principal::Agent(id)) if id == "a1"));
    assert!(matches!(principal("user:client:a1"), Some(Principal::Operator(n)) if n == "client:a1"));
    assert!(principal("nobody").is_none());
}

#[test]
fn registering_stores_the_hash_and_hands_back_the_secret() {
    let mut clients = vec![agent("a1", "one", true)];
    let (auth, schedule) = register_client(
        &mut clients,
        "two",
        "a2".to_string(),
        "password".to_string(),
        PASSWORD_HASH.to_string(),
        at(700),
    )
    .unwrap();
    assert_eq!((auth.id.as_str(), auth.token.as_str()), ("a2", "password"));
    assert_eq!(schedule, ClientLastRun { lastrun: at(700), manualrun: false });
    assert_eq!(clients.len(), 2);
    assert_eq!(clients[1].id, "a2");
    assert_eq!(clients[1].token, PASSWORD_HASH);
    assert_eq!(clients[1].name, "two");
    assert!(clients[1].enabled);
    assert_eq!((clients[1].created, clients[1].lastconnect), (at(700), at(700)));
    assert!(client_authenticate(&mut clients, "a2", "password", at(701)).unwrap());
}

#[test]
fn registering_refuses_taken_names_and_identifiers() {
    let mut clients = vec![agent("a1", "one", true)];
    let taken_name = register_client(
        &mut clients,
        "one",
        "a2".to_string(),
        "t".to_string(),
        "h".to_string(),
        at(700),
    );
    assert!(matches!(taken_name, Err(SqlError::ClientNameExists(name)) if name == "one"));
    let taken_id = register_client(
        &mut clients,
        "two",
        "a1".to_string(),
        "t".to_string(),
        "h".to_string(),
        at(700),
    );
    assert!(matches!(taken_id, Err(SqlError::ClientCreateFailed)));
    let both = register_client(
        &mut clients,
        "one",
        "a1".to_string(),
        "t".to_string(),
        "h".to_string(),
        at(700),
    );
    assert!(matches!(both, Err(SqlError::ClientNameExists(_))));
    assert_eq!(clients.len(), 1);
    assert_eq!(clients[0].name, "one");
}

#[test]
fn registering_an_operator_stores_the_hash() {
    let mut users = vec![operator("root", true)];
    register_user(&mut users, "second", PASSWORD_HASH.to_string()).unwrap();
    assert_eq!(users.len(), 2);
    assert_eq!(users[1].username, "second");
    assert_eq!(users[1].passwd, PASSWORD_HASH);
    assert!(users[1].enabled);
    assert_eq!(users[1].lastlogin, None);
    assert!(matches!(
        register_user(&mut users, "root", "h".to_string()),
        Err(SqlError::UserCreateFailed)
    ));
    assert_eq!(users.len(), 2);
    assert_eq!(find_user(&users, "second"), Some(1));
    assert_eq!(find_user(&users, "third"), None);
    assert!(user_login(&mut users, "second", "password", at(5)).unwrap());
}

#[test]
fn first_draw_is_taken_where_no_stored_identifier_can_be_drawn() {
    let none: Vec<ClientRecord> = Vec::new();
    let id = fresh_client_id(&none).expect("nothing is stored");
    assert_eq!(id.len(), 32);
    assert!(id.chars().all(|c| c.is_ascii_alphanumeric()));
    let short = vec![agent("a1", "one", true), agent("", "two", true)];
    assert!(fresh_client_id(&short).is_some());
    let dashed = vec![agent("0123456789abcdef0123456789abcde-", "three", true)];
    assert!(fresh_client_id(&dashed).is_some());
}

#[test]
fn unreadable_hash_is_an_error_at_either_login() {
    let mut clients = vec![agent("a1", "one", true)];
    clients[0].token = "not a hash".to_string();
    assert!(matches!(
        api_client_login(None, &mut clients, "a1", "password", at(200)),
        Err(SqlError::Bcrypt(_))
    ));
    assert_eq!(clients[0].lastconnect, at(100));
    clients[0].enabled = false;
    assert!(matches!(
        api_client_login(None, &mut clients, "a1", "password", at(200)),
        Ok(LoginReply::Failed)
    ));
    let mut users = vec![operator("root", true)];
    users[0].passwd = "not a hash".to_string();
    assert!(matches!(
        api_user_login(&mut users, "root", "password", &None, at(10)),
        Err(SqlError::Bcrypt(_))
    ));
    assert_eq!(users[0].lastlogin, None);
    users[0].enabled = false;
    assert!(matches!(
        api_user_login(&mut users, "root", "password", &None, at(10)),
        Ok(UserLoginReply::Failed)
    ));
}

#[test]
fn agent_creation_answers_each_kind_of_operator() {
    let mut clients = vec![agent("a1", "one", true)];
    let mut disabled = vec![operator("root", false)];
    let refused =
        api_client_create(&mut disabled, &mut clients, "root", "password", "two", at(10));
    assert!(matches!(refused, Ok(None)));
    assert_eq!(disabled[0].lastlogin, None);
    let mut unreadable = vec![operator("root", true)];
    unreadable[0].passwd = "not a hash".to_string();
    assert!(matches!(
        api_client_create(&mut unreadable, &mut clients, "root", "password", "two", at(10)),
        Err(SqlError::Bcrypt(_))
    ));
    let mut users = vec![operator("root", true)];
    let taken = api_client_create(&mut users, &mut clients, "root", "password", "one", at(10));
    assert!(matches!(taken, Err(SqlError::ClientNameExists(name)) if name == "one"));
    assert_eq!(users[0].lastlogin, Some(at(10)));
    assert_eq!(clients.len(), 1);
    let (auth, schedule) =
        api_client_create(&mut users, &mut clients, "root", "password", "two", at(20))
            .unwrap()
            .expect("an agent");
    assert_eq!(schedule, ClientLastRun { lastrun: at(20), manualrun: false });
    assert_eq!(users[0].lastlogin, Some(at(20)));
    assert_eq!((auth.id.len(), auth.token.len()), (32, 32));
    assert!(auth.id.chars().chain(auth.token.chars()).all(|c| c.is_ascii_alphanumeric()));
    assert_ne!(auth.id, "a1");
    assert_eq!(clients.len(), 2);
    assert_eq!(clients[0].id, "a1");
    assert_eq!(clients[1].id, auth.id);
    assert_eq!(clients[1].name, "two");
    assert!(clients[1].enabled);
    assert_eq!((clients[1].created, clients[1].lastconnect), (at(20), at(20)));
    assert!(client_authenticate(&mut clients, &auth.id, &auth.token, at(30)).unwrap());
}

use securelog::agent::{first_step, next_step, AgentEvent, AgentStep};
use securelog::conf::{or_default, required, ClientConfig, ServerConfig, Setting};
use securelog::models::{Search, SearchType};
use securelog::searchrunner::SearchError;
use securelog::sql::client::ClientAuth;
use securelog::text::{join, trim_line_end};
use securelog::web::html::{
    clients, index, js_file, login, page, schedule, search_result_form, search_results, searches,
    webhooks, Page, PageReply,
};
use securelog::web::LoginHtml;
use securelog::webclient::{
    create_client_token, endpoint, get_searches, get_should_run, logout, notify_running,
    send_search_results, Call, ClientShouldRun, WebError,
};

fn unreachable_server() -> WebError {
    WebError::Reqwest("connection refused".to_string())
}

#[test]
fn agent_starts_only_after_login() {
    assert_eq!(first_step(&Ok(true)), Some(AgentStep::Poll));
    assert_eq!(first_step(&Ok(false)), None);
    assert_eq!(first_step(&Err(unreachable_server())), None);
}

#[test]
fn agent_runs_after_go_ahead_and_notice() {
    let mut step = AgentStep::Sleep;
    step = next_step(step, &AgentEvent::Woke);
    assert_eq!(step, AgentStep::Poll);
    step = next_step(step, &AgentEvent::ShouldRun(Ok(true)));
    assert_eq!(step, AgentStep::Notify);
    step = next_step(step, &AgentEvent::Notified(Ok(true)));
    assert_eq!(step, AgentStep::Scan);
    step = next_step(step, &AgentEvent::Ran(Ok(())));
    assert_eq!(step, AgentStep::Sleep);
}

#[test]
fn agent_sleeps_when_told_not_to_run() {
    assert_eq!(next_step(AgentStep::Poll, &AgentEvent::ShouldRun(Ok(false))), AgentStep::Sleep);
}

#[test]
fn agent_survives_every_failure() {
    assert_eq!(
        next_step(AgentStep::Poll, &AgentEvent::ShouldRun(Err(unreachable_server()))),
        AgentStep::Sleep
    );
    assert_eq!(
        next_step(AgentStep::Notify, &AgentEvent::Notified(Err(unreachable_server()))),
        AgentStep::Sleep
    );
    assert_eq!(
        next_step(AgentStep::Scan, &AgentEvent::Ran(Err(SearchError::Web(unreachable_server())))),
        AgentStep::Sleep
    );
    assert_eq!(next_step(AgentStep::Sleep, &AgentEvent::Woke), AgentStep::Poll);
}

#[test]
fn agent_ignores_events_out_of_turn() {
    assert_eq!(next_step(AgentStep::Sleep, &AgentEvent::ShouldRun(Ok(true))), AgentStep::Sleep);
    assert_eq!(next_step(AgentStep::Poll, &AgentEvent::Notified(Ok(true))), AgentStep::Sleep);
    assert_eq!(next_step(AgentStep::Poll, &AgentEvent::Woke), AgentStep::Sleep);
    assert_eq!(next_step(AgentStep::Notify, &AgentEvent::ShouldRun(Ok(true))), AgentStep::Sleep);
    assert_eq!(next_step(AgentStep::Scan, &AgentEvent::Woke), AgentStep::Sleep);
}

#[test]
fn endpoints_are_paths_under_the_server() {
    let server = "https://logs.example";
    assert_eq!(endpoint(server, Call::Login), "https://logs.example/api/client/login");
    assert_eq!(endpoint(server, Call::Logout), "https://logs.example/api/client/logout");
    assert_eq!(endpoint(server, Call::GetSearches), "https://logs.example/api/client/get_searches");
    assert_eq!(
        endpoint(server, Call::SendSearchResults),
        "https://logs.example/api/client/send_search_results"
    );
    assert_eq!(endpoint(server, Call::Create), "https://logs.example/api/client/create");
    assert_eq!(endpoint(server, Call::ShouldRun), "https://logs.example/api/client/should_run");
    assert_eq!(
        endpoint(server, Call::NotifyRunning),
        "https://logs.example/api/client/notify_running"
    );
    assert_eq!(endpoint("", Call::Login), "/api/client/login");
}

#[test]
fn only_status_200_grants() {
    assert!(securelog::webclient::login(200));
    assert!(!securelog::webclient::login(401));
    assert!(!securelog::webclient::login(500));
    assert!(!securelog::webclient::login(201));
    assert!(logout(200));
    assert!(!logout(302));
    assert!(send_search_results(200));
    assert!(!send_search_results(401));
    assert!(notify_running(200));
    assert!(!notify_running(500));
}

#[test]
fn searches_are_read_from_a_granted_answer_only() {
    let one = || {
        vec![Search::new(1, "n".to_string(), SearchType::Regex, "p".to_string(), Vec::new())]
    };
    assert_eq!(get_searches(200, Ok(one())).unwrap().len(), 1);
    assert!(matches!(
        get_searches(200, Err(WebError::Json("eof".to_string()))),
        Err(WebError::Json(_))
    ));
    assert!(get_searches(401, Ok(one())).unwrap().is_empty());
    assert!(get_searches(500, Err(WebError::Json("eof".to_string()))).unwrap().is_empty());
}

#[test]
fn should_run_is_read_from_a_granted_answer_only() {
    assert_eq!(get_should_run(200, Ok(ClientShouldRun { should_run: true })).unwrap(), true);
    assert_eq!(get_should_run(200, Ok(ClientShouldRun { should_run: false })).unwrap(), false);
    assert!(matches!(
        get_should_run(200, Err(WebError::Json("not a bool".to_string()))),
        Err(WebError::Json(_))
    ));
    assert_eq!(get_should_run(401, Ok(ClientShouldRun { should_run: true })).unwrap(), false);
    assert_eq!(get_should_run(500, Err(WebError::Json("x".to_string()))).unwrap(), false);
}

#[test]
fn created_credentials_need_a_granted_answer() {
    let auth = || ClientAuth { id: "i".to_string(), token: "t".to_string() };
    assert_eq!(create_client_token(200, Ok(auth())).unwrap().id, "i");
    assert!(matches!(create_client_token(401, Ok(auth())), Err(WebError::Status(401))));
    assert!(matches!(create_client_token(500, Ok(auth())), Err(WebError::Status(500))));
    assert!(matches!(
        create_client_token(200, Err(WebError::Json("x".to_string()))),
        Err(WebError::Json(_))
    ));
}

#[test]
fn agent_settings_and_their_defaults() {
    let mut config = ClientConfig {
        server: Some("https://logs.example".to_string()),
        name: Some("web-1".to_string()),
        id: Some("a1".to_string()),
        token: Some("secret".to_string()),
        log_dir: None,
        log_level: None,
        log_stdout: None,
    };
    assert!(!config.config_missing());
    assert_eq!(config.get_server().unwrap(), "https://logs.example");
    assert_eq!(config.get_id().unwrap(), "a1");
    assert_eq!(config.get_token().unwrap(), "secret");
    assert_eq!(config.get_log_dir(), "logs/");
    assert_eq!(config.get_log_level(), "info");
    assert!(!config.get_log_stdout());
    config.log_dir = Some("/var/log/agent".to_string());
    config.log_level = Some("debug".to_string());
    config.log_stdout = Some(true);
    assert_eq!(config.get_log_dir(), "/var/log/agent");
    assert_eq!(config.get_log_level(), "debug");
    assert!(config.get_log_stdout());
    config.token = None;
    assert!(config.config_missing());
    assert!(matches!(config.get_token(), Err(WebError::Config(key)) if key == "token"));
    config.token = Some("secret".to_string());
    config.server = None;
    assert!(config.config_missing());
    assert!(matches!(config.get_server(), Err(WebError::Config(key)) if key == "server"));
    config.server = Some("s".to_string());
    config.name = None;
    assert!(config.config_missing());
    config.name = Some("n".to_string());
    config.id = None;
    assert!(config.config_missing());
    assert!(matches!(config.get_id(), Err(WebError::Config(key)) if key == "id"));
}

#[test]
fn server_settings_are_checked() {
    let mut config = ServerConfig {
        cert: None,
        key: Some("key.pem".to_string()),
        listen: None,
        pg_params: Some("host=db".to_string()),
        log_dir: None,
        log_level: None,
        log_stdout: None,
        https: None,
    };
    assert_eq!(config.check_config(), vec![Setting::Cert, Setting::Listen]);
    assert!(!config.get_use_https());
    assert!(matches!(config.get_server_listen(), Err(WebError::Config(key)) if key == "listen"));
    assert_eq!(config.get_pg_params().unwrap(), "host=db");
    config.cert = Some("cert.pem".to_string());
    config.listen = Some("0.0.0.0:8443".to_string());
    config.https = Some(true);
    assert!(config.check_config().is_empty());
    assert!(config.get_use_https());
    assert_eq!(config.get_server_listen().unwrap(), "0.0.0.0:8443");
    config.key = None;
    config.pg_params = None;
    assert_eq!(config.check_config(), vec![Setting::Key, Setting::PgParams]);
    assert_eq!(Setting::Cert.key(), "cert");
    assert_eq!(Setting::Key.key(), "key");
    assert_eq!(Setting::Listen.key(), "listen");
    assert_eq!(Setting::PgParams.key(), "pg_params");
    assert!(matches!(required(&None, "x"), Err(WebError::Config(key)) if key == "x"));
    assert_eq!(required(&Some("v".to_string()), "x").unwrap(), "v");
    assert_eq!(or_default(&None, "d"), "d");
    assert_eq!(or_default(&Some("v".to_string()), "d"), "v");
}

#[test]
fn typed_line_loses_its_ending() {
    assert_eq!(trim_line_end("abc\n"), "abc");
    assert_eq!(trim_line_end("abc"), "abc");
    assert_eq!(trim_line_end("abc\n\r"), "abc");
    assert_eq!(trim_line_end("abc\r\n"), "abc\r");
    assert_eq!(trim_line_end("abc\r"), "abc");
    assert_eq!(trim_line_end("\n"), "");
    assert_eq!(trim_line_end(""), "");
    assert_eq!(trim_line_end("a\n\n"), "a\n");
    assert_eq!(join("ab", "cd"), "abcd");
    assert_eq!(join("", ""), "");
}

#[test]
fn pages_are_for_operators() {
    let operator = Some("user:root");
    assert!(matches!(page(Page::Index, operator), PageReply::File(f) if f == "index.html"));
    assert!(matches!(page(Page::Clients, operator), PageReply::File(f) if f == "clients.html"));
    assert!(matches!(
        page(Page::SearchResultForm, operator),
        PageReply::File(f) if f == "search_result_form.html"
    ));
    assert!(matches!(
        page(Page::SearchResults, operator),
        PageReply::File(f) if f == "search_results.html"
    ));
    assert!(matches!(page(Page::Schedule, operator), PageReply::File(f) if f == "schedule.html"));
    assert!(matches!(page(Page::Searches, operator), PageReply::File(f) if f == "searches.html"));
    assert!(matches!(page(Page::Webhooks, operator), PageReply::File(f) if f == "webhooks.html"));
    assert!(matches!(page(Page::Index, None), PageReply::Redirect(to) if to == "/login?redirect=/"));
    assert!(matches!(
        page(Page::Clients, Some("client:a1")),
        PageReply::Redirect(to) if to == "/login?redirect=/clients"
    ));
    assert!(matches!(
        page(Page::Webhooks, None),
        PageReply::Redirect(to) if to == "/login?redirect=/webhooks"
    ));
    assert!(matches!(
        page(Page::Schedule, None),
        PageReply::Redirect(to) if to == "/login?redirect=/schedule"
    ));
}

#[test]
fn login_page_and_scripts() {
    let nowhere = LoginHtml { redirect: None };
    assert!(matches!(login(None, &nowhere), PageReply::File(f) if f == "login.html"));
    assert!(matches!(login(Some("user:root"), &nowhere), PageReply::Proceed(to) if to == "/"));
    let asked = LoginHtml { redirect: Some("/searches".to_string()) };
    assert!(matches!(login(Some("user:root"), &asked), PageReply::Proceed(to) if to == "/searches"));
    assert!(matches!(js_file("login.js", None), PageReply::File(f) if f == "login.js"));
    assert!(matches!(js_file("app.js", None), PageReply::Unauthorized));
    assert!(matches!(js_file("app.js", Some("client:a1")), PageReply::Unauthorized));
    assert!(matches!(js_file("app.js", Some("user:root")), PageReply::File(f) if f == "app.js"));
}

#[test]
fn each_page_has_its_own_entry() {
    let operator = Some("user:root");
    assert!(matches!(index(operator), PageReply::File(f) if f == "index.html"));
    assert!(matches!(clients(operator), PageReply::File(f) if f == "clients.html"));
    assert!(matches!(
        search_result_form(operator),
        PageReply::File(f) if f == "search_result_form.html"
    ));
    assert!(matches!(search_results(operator), PageReply::File(f) if f == "search_results.html"));
    assert!(matches!(schedule(operator), PageReply::File(f) if f == "schedule.html"));
    assert!(matches!(searches(operator), PageReply::File(f) if f == "searches.html"));
    assert!(matches!(webhooks(operator), PageReply::File(f) if f == "webhooks.html"));
    assert!(matches!(index(None), PageReply::Redirect(to) if to == "/login?redirect=/"));
    assert!(matches!(clients(None), PageReply::Redirect(to) if to == "/login?redirect=/clients"));
    assert!(matches!(
        search_result_form(None),
        PageReply::Redirect(to) if to == "/login?redirect=/search_result_form"
    ));
    assert!(matches!(search_results(None), PageReply::Redirect(to) if to == "/login?redirect=/"));
    assert!(matches!(searches(None), PageReply::Redirect(to) if to == "/login?redirect=/searches"));
    assert!(matches!(webhooks(None), PageReply::Redirect(to) if to == "/login?redirect=/webhooks"));
}

#[test]
fn server_settings_have_getters() {
    let config = ServerConfig {
        cert: Some("cert.pem".to_string()),
        key: None,
        listen: None,
        pg_params: None,
        log_dir: None,
        log_level: Some("warn".to_string()),
        log_stdout: Some(false),
        https: Some(false),
    };
    assert_eq!(config.get_server_cert().unwrap(), "cert.pem");
    assert!(matches!(config.get_server_cert_key(), Err(WebError::Config(key)) if key == "key"));
    assert!(matches!(config.get_pg_params(), Err(WebError::Config(key)) if key == "pg_params"));
    assert_eq!(config.get_log_dir(), "logs/");
    assert_eq!(config.get_log_level(), "warn");
    assert!(!config.get_log_stdout());
    assert!(!config.get_use_https());
}

use vstd::prelude::*;
use crate::text::str_eq;
use crate::web::{is_operator, login_redirect, redirect_target, user_logged_in, LoginHtml};

verus! {

/// A page of the operator's site.
#[derive(Debug, Clone, Copy, PartialEq, Eq, Structural)]
pub enum Page {
    Index,
    Clients,
    SearchResultForm,
    SearchResults,
    Schedule,
    Searches,
    Webhooks,
}

/// What the site answers to a request for a page or a script.
#[derive(Debug)]
pub enum PageReply {
    /// The file of this name is served.
    File(String),
    /// The caller is sent to this place.
    Redirect(String),
    /// The caller is already logged in and is told where to go on.
    Proceed(String),
    /// The caller is refused.
    Unauthorized,
}

impl Page {
    /// The file that holds the page.
    pub open spec fn file(self) -> Seq<char> {
        match self {
            Page::Index => "index.html"@,
            Page::Clients => "clients.html"@,
            Page::SearchResultForm => "search_result_form.html"@,
            Page::SearchResults => "search_results.html"@,
            Page::Schedule => "schedule.html"@,
            Page::Searches => "searches.html"@,
            Page::Webhooks => "webhooks.html"@,
        }
    }

    /// Where a caller without an operator's session is sent instead.
    pub open spec fn login_path(self) -> Seq<char> {
        match self {
            Page::Index => "/login?redirect=/"@,
            Page::Clients => "/login?redirect=/clients"@,
            Page::SearchResultForm => "/login?redirect=/search_result_form"@,
            Page::SearchResults => "/login?redirect=/"@,
            Page::Schedule => "/login?redirect=/schedule"@,
            Page::Searches => "/login?redirect=/searches"@,
            Page::Webhooks => "/login?redirect=/webhooks"@,
        }
    }
}

/// Answers a request for a page: an operator gets the page, anyone else is
/// sent to the login page, which leads back to this page.
pub fn page(which: Page, user: Option<&str>) -> (reply: PageReply)
    ensures
        is_operator(user) ==> (reply matches PageReply::File(name) && name@ == which.file()),
        !is_operator(user) ==> (reply matches PageReply::Redirect(to) && to@
            == which.login_path()),
{
    if user_logged_in(user).is_some() {
        let name = match which {
            Page::Index => "index.html",
            Page::Clients => "clients.html",
            Page::SearchResultForm => "search_result_form.html",
            Page::SearchResults => "search_results.html",
            Page::Schedule => "schedule.html",
            Page::Searches => "searches.html",
            Page::Webhooks => "webhooks.html",
        };
        PageReply::File(name.to_owned())
    } else {
        let to = match which {
            Page::Index => "/login?redirect=/",
            Page::Clients => "/login?redirect=/clients",
            Page::SearchResultForm => "/login?redirect=/search_result_form",
            Page::SearchResults => "/login?redirect=/",
            Page::Schedule => "/login?redirect=/schedule",
            Page::Searches => "/login?redirect=/searches",
            Page::Webhooks => "/login?redirect=/webhooks",
        };
        PageReply::Redirect(to.to_owned())
    }
}

/// Answers a request for the start page.
pub fn index(user: Option<&str>) -> (reply: PageReply)
    ensures
        is_operator(user) ==> (reply matches PageReply::File(name) && name@ == "index.html"@),
        !is_operator(user) ==> (reply matches PageReply::Redirect(to) && to@
            == "/login?redirect=/"@),
{
    page(Page::Index, user)
}

/// Answers a request for the page of the agents.
pub fn clients(user: Option<&str>) -> (reply: PageReply)
    ensures
        is_operator(user) ==> (reply matches PageReply::File(name) && name@ == "clients.html"@),
        !is_operator(user) ==> (reply matches PageReply::Redirect(to) && to@
            == "/login?redirect=/clients"@),
{
    page(Page::Clients, user)
}

/// Answers a request for the form that asks for results.
pub fn search_result_form(user: Option<&str>) -> (reply: PageReply)
    ensures
        is_operator(user) ==> (reply matches PageReply::File(name) && name@
            == "search_result_form.html"@),
        !is_operator(user) ==> (reply matches PageReply::Redirect(to) && to@
            == "/login?redirect=/search_result_form"@),
{
    page(Page::SearchResultForm, user)
}

/// Answers a request for the page of the results.
pub fn search_results(user: Option<&str>) -> (reply: PageReply)
    ensures
        is_operator(user) ==> (reply matches PageReply::File(name) && name@
            == "search_results.html"@),
        !is_operator(user) ==> (reply matches PageReply::Redirect(to) && to@
            == "/login?redirect=/"@),
{
    page(Page::SearchResults, user)
}

/// Answers a request for the page of the schedule.
pub fn schedule(user: Option<&str>) -> (reply: PageReply)
    ensures
        is_operator(user) ==> (reply matches PageReply::File(name) && name@ == "schedule.html"@),
        !is_operator(user) ==> (reply matches PageReply::Redirect(to) && to@
            == "/login?redirect=/schedule"@),
{
    page(Page::Schedule, user)
}

/// Answers a request for the page of the searches.
pub fn searches(user: Option<&str>) -> (reply: PageReply)
    ensures
        is_operator(user) ==> (reply matches PageReply::File(name) && name@ == "searches.html"@),
        !is_operator(user) ==> (reply matches PageReply::Redirect(to) && to@
            == "/login?redirect=/searches"@),
{
    page(Page::Searches, user)
}

/// Answers a request for the page of the webhooks.
pub fn webhooks(user: Option<&str>) -> (reply: PageReply)
    ensures
        is_operator(user) ==> (reply matches PageReply::File(name) && name@ == "webhooks.html"@),
        !is_operator(user) ==> (reply matches PageReply::Redirect(to) && to@
            == "/login?redirect=/webhooks"@),
{
    page(Page::Webhooks, user)
}

/// Answers a request for the login page: an operator who is logged in is
/// told where to go on, which is the place asked for if it is a path of
/// this site and the start page otherwise; anyone else gets the page.
pub fn login(user: Option<&str>, params: &LoginHtml) -> (reply: PageReply)
    ensures
        !is_operator(user) ==> (reply matches PageReply::File(name) && name@ == "login.html"@),
        is_operator(user) ==> (reply matches PageReply::Proceed(to) && to@ == redirect_target(
            params.redirect,
        )),
{
    if user_logged_in(user).is_some() {
        PageReply::Proceed(login_redirect(&params.redirect))
    } else {
        PageReply::File("login.html".to_owned())
    }
}

/// Answers a request for a script: the script of the login page is served
/// to anyone, every other script to operators only.
pub fn js_file(path: &str, user: Option<&str>) -> (reply: PageReply)
    ensures
        path@ == "login.js"@ || is_operator(user) ==> (reply matches PageReply::File(name)
            && name@ == path@),
        !(path@ == "login.js"@ || is_operator(user)) ==> reply is Unauthorized,
{
    if str_eq(path, "login.js") {
        return PageReply::File(path.to_owned());
    }
    if user_logged_in(user).is_some() {
        PageReply::File(path.to_owned())
    } else {
        PageReply::Unauthorized
    }
}

} // verus!

//! The decisions of logging into a Drupal site. Running the requests is
//! left to the caller: it performs each `LogInAction` and hands back what
//! came of it as a `LogInEvent`.

use vstd::prelude::*;
use super::form::{
    form_in, form_value_in, form_pattern_of, form_value_pattern_of, try_get_form,
    try_get_form_value,
};
use super::login::{opt_str_view, Login, LoginView};
use crate::pattern::regex_compiles;

verus! {

/// The view of an optional reference to a `Login`.
pub open spec fn opt_login_view(login: Option<&Login>) -> Option<LoginView> {
    match login {
        Some(l) => Some(l@),
        None => None,
    }
}

/// The username to log in with: `GOOSE_USER` where it is set, else the
/// `Login`'s default username, else `username`.
pub open spec fn resolved_username(env_user: Option<Seq<char>>, login: Option<LoginView>) -> Seq<
    char,
> {
    match env_user {
        Some(u) => u,
        None => match login {
            Some(l) => match l.username {
                Some(u) => u,
                None => "username"@,
            },
            None => "username"@,
        },
    }
}

/// The password to log in with: `GOOSE_PASS` where it is set, else the
/// `Login`'s default password, else `password`.
pub open spec fn resolved_password(env_pass: Option<Seq<char>>, login: Option<LoginView>) -> Seq<
    char,
> {
    match env_pass {
        Some(p) => p,
        None => match login {
            Some(l) => match l.password {
                Some(p) => p,
                None => "password"@,
            },
            None => "password"@,
        },
    }
}

/// The path of the log-in page: the `Login`'s url, else `/user/login`.
pub open spec fn resolved_path(login: Option<LoginView>) -> Seq<char> {
    match login {
        Some(l) => match l.url {
            Some(u) => u,
            None => "/user/login"@,
        },
        None => "/user/login"@,
    }
}

/// The title expected after logging in: the `Login`'s title, else the
/// username that was used.
pub open spec fn resolved_title(login: Option<LoginView>, username: Seq<char>) -> Seq<char> {
    match login {
        Some(l) => match l.title {
            Some(t) => t,
            None => username,
        },
        None => username,
    }
}

/// Returns the username to log in with.
pub fn resolve_username(env_user: Option<&str>, login: Option<&Login>) -> (r: String)
    ensures
        r@ == resolved_username(opt_str_view(env_user), opt_login_view(login)),
{
    match env_user {
        Some(u) => u.to_owned(),
        None => match login {
            Some(l) => match l.default_username() {
                Some(u) => u.to_owned(),
                None => "username".to_owned(),
            },
            None => "username".to_owned(),
        },
    }
}

/// Returns the password to log in with.
pub fn resolve_password(env_pass: Option<&str>, login: Option<&Login>) -> (r: String)
    ensures
        r@ == resolved_password(opt_str_view(env_pass), opt_login_view(login)),
{
    match env_pass {
        Some(p) => p.to_owned(),
        None => match login {
            Some(l) => match l.default_password() {
                Some(p) => p.to_owned(),
                None => "password".to_owned(),
            },
            None => "password".to_owned(),
        },
    }
}

/// Returns the path of the log-in page.
pub fn resolve_path(login: Option<&Login>) -> (r: String)
    ensures
        r@ == resolved_path(opt_login_view(login)),
{
    match login {
        Some(l) => match l.custom_url() {
            Some(u) => u.to_owned(),
            None => "/user/login".to_owned(),
        },
        None => "/user/login".to_owned(),
    }
}

/// Returns the title expected after logging in as `username`.
pub fn resolve_title(login: Option<&Login>, username: &str) -> (r: String)
    ensures
        r@ == resolved_title(opt_login_view(login), username@),
{
    match login {
        Some(l) => match l.custom_title() {
            Some(t) => t.to_owned(),
            None => username.to_owned(),
        },
        None => username.to_owned(),
    }
}

/// The text that marks the log-in page as holding the log-in form.
pub open spec fn login_form_marker() -> Seq<char> {
    "<form class=\"user-login-form\""@
}

/// The failure reported when the log-in page at `path` has no log-in form.
pub open spec fn missing_form_message_of(path: Seq<char>) -> Seq<char> {
    path + ": no user-login-form on page"@
}

/// The failure reported when the log-in form at `path` has no build id.
pub open spec fn missing_build_id_message_of(path: Seq<char>) -> Seq<char> {
    path + ": no form_build_id on page"@
}

/// The failure reported when posting the log-in form ended at `final_url`
/// without being redirected.
pub open spec fn login_failed_message_of(final_url: Seq<char>) -> Seq<char> {
    final_url + ": login failed (check `GOOSE_USER` and `GOOSE_PASS`)"@
}

/// The fields posted to log in, in order.
pub open spec fn login_params_of(username: Seq<char>, password: Seq<char>, build_id: Seq<char>) -> Seq<
    (Seq<char>, Seq<char>),
> {
    seq![
        ("name"@, username),
        ("pass"@, password),
        ("form_build_id"@, build_id),
        ("form_id"@, "user_login_form"@),
        ("op"@, "Log+in"@),
    ]
}

/// The view of a list of name/value pairs.
pub open spec fn pairs_view(v: Seq<(String, String)>) -> Seq<(Seq<char>, Seq<char>)> {
    v.map_values(|p: (String, String)| (p.0@, p.1@))
}

/// Returns the failure reported when the log-in page at `path` has no
/// log-in form.
pub fn missing_form_message(path: &str) -> (r: String)
    ensures
        r@ == missing_form_message_of(path@),
{
    let mut r = path.to_owned();
    r.append(": no user-login-form on page");
    r
}

/// Returns the failure reported when the log-in form at `path` has no
/// build id.
pub fn missing_build_id_message(path: &str) -> (r: String)
    ensures
        r@ == missing_build_id_message_of(path@),
{
    let mut r = path.to_owned();
    r.append(": no form_build_id on page");
    r
}

/// Returns the failure reported when posting the log-in form ended at
/// `final_url` without being redirected.
pub fn login_failed_message(final_url: &str) -> (r: String)
    ensures
        r@ == login_failed_message_of(final_url@),
{
    let mut r = final_url.to_owned();
    r.append(": login failed (check `GOOSE_USER` and `GOOSE_PASS`)");
    r
}

/// Returns the fields to post to log in as `username` with `password`,
/// given the form's build id.
pub fn login_params(username: &str, password: &str, build_id: &str) -> (r: Vec<(String, String)>)
    ensures
        pairs_view(r@) == login_params_of(username@, password@, build_id@),
{
    let mut r: Vec<(String, String)> = Vec::new();
    r.push(("name".to_owned(), username.to_owned()));
    r.push(("pass".to_owned(), password.to_owned()));
    r.push(("form_build_id".to_owned(), build_id.to_owned()));
    r.push(("form_id".to_owned(), "user_login_form".to_owned()));
    r.push(("op".to_owned(), "Log+in".to_owned()));
    assert(pairs_view(r@) =~= login_params_of(username@, password@, build_id@));
    r
}

/// What a log-in run asks of its caller next.
#[derive(Debug, Clone, PartialEq, Eq)]
pub enum LogInAction {
    /// Load the page at `path` and check that it holds `expect_text`, then
    /// hand back its HTML as `LogInEvent::PageLoaded`.
    LoadPage { path: String, expect_text: String },
    /// Post `params` as a form to `path`, then hand back what came of it as
    /// `LogInEvent::FormPosted`.
    PostForm { path: String, params: Vec<(String, String)> },
    /// Load what the last request led to and check that its title holds
    /// `title`, then hand back its HTML as `LogInEvent::TitleChecked`.
    CheckTitle { title: String },
    /// Report the last request as failed with `message` and the page text
    /// `detail`; the run ends and gives back `result`.
    Fail { message: String, detail: String, result: String },
    /// The run ends, logged in; `html` is the page it landed on.
    Finish { html: String },
    /// A pattern used to read the log-in form did not compile.
    PatternRefused,
}

/// What a `LogInAction` holds, as text.
pub enum LogInActionView {
    LoadPage { path: Seq<char>, expect_text: Seq<char> },
    PostForm { path: Seq<char>, params: Seq<(Seq<char>, Seq<char>)> },
    CheckTitle { title: Seq<char> },
    Fail { message: Seq<char>, detail: Seq<char>, result: Seq<char> },
    Finish { html: Seq<char> },
    PatternRefused,
}

impl View for LogInAction {
    type V = LogInActionView;

    open spec fn view(&self) -> LogInActionView {
        match self {
            LogInAction::LoadPage { path, expect_text } => LogInActionView::LoadPage {
                path: path@,
                expect_text: expect_text@,
            },
            LogInAction::PostForm { path, params } => LogInActionView::PostForm {
                path: path@,
                params: pairs_view(params@),
            },
            LogInAction::CheckTitle { title } => LogInActionView::CheckTitle { title: title@ },
            LogInAction::Fail { message, detail, result } => LogInActionView::Fail {
                message: message@,
                detail: detail@,
                result: result@,
            },
            LogInAction::Finish { html } => LogInActionView::Finish { html: html@ },
            LogInAction::PatternRefused => LogInActionView::PatternRefused,
        }
    }
}

/// What came of the last `LogInAction`.
#[derive(Debug, Clone, PartialEq, Eq)]
pub enum LogInEvent {
    /// The log-in page was loaded and checked; `html` is its text.
    PageLoaded { html: String },
    /// The log-in form was posted; whether the request was redirected, the
    /// url it ended at, and the text of the response (or of its error).
    FormPosted { redirected: bool, final_url: String, html: String },
    /// The page after log-in was loaded and its title checked.
    TitleChecked { html: String },
}

/// Decides what follows the lookups in the loaded log-in `page`: `form` is
/// what was found of the log-in form, `build_id` what was found of its
/// build id (where a form was found). Posts the log-in fields to
/// `path`, the log-in url, when both were found, else fails, giving back
/// nothing.
pub fn form_outcome(
    username: &str,
    password: &str,
    path: &str,
    page: String,
    form: Option<String>,
    build_id: Option<String>,
) -> (r: LogInAction)
    ensures
        form is None ==> r@ == (LogInActionView::Fail {
            message: missing_form_message_of(path@),
            detail: page@,
            result: Seq::empty(),
        }),
        form matches Some(f) ==> (build_id is None ==> r@ == (LogInActionView::Fail {
            message: missing_build_id_message_of(path@),
            detail: f@,
            result: Seq::empty(),
        })),
        form is Some ==> (build_id matches Some(id) ==> r@ == (LogInActionView::PostForm {
            path: path@,
            params: login_params_of(username@, password@, id@),
        })),
{
    match form {
        None => LogInAction::Fail {
            message: missing_form_message(path),
            detail: page,
            result: String::new(),
        },
        Some(f) => match build_id {
            None => LogInAction::Fail {
                message: missing_build_id_message(path),
                detail: f,
                result: String::new(),
            },
            Some(id) => LogInAction::PostForm {
                path: path.to_owned(),
                params: login_params(username, password, id.as_str()),
            },
        },
    }
}

/// Where a log-in run stands.
#[derive(Clone, Copy, Debug, PartialEq, Eq, Structural)]
pub enum LogInStage {
    /// Waiting for the log-in page.
    LoadingPage,
    /// Waiting for the answer to the posted log-in form.
    Posting,
    /// Waiting for the page after log-in, with its title checked.
    CheckingTitle,
    /// The run has ended.
    Done,
}

/// A log-in run: the username, password, log-in path and expected title it
/// settled on at the start, and where it stands.
pub struct LogInFlow {
    username: String,
    password: String,
    path: String,
    title: String,
    stage: LogInStage,
}

/// What a `LogInFlow` holds.
pub struct LogInFlowView {
    pub username: Seq<char>,
    pub password: Seq<char>,
    pub path: Seq<char>,
    pub title: Seq<char>,
    pub stage: LogInStage,
}

impl View for LogInFlow {
    type V = LogInFlowView;

    closed spec fn view(&self) -> LogInFlowView {
        LogInFlowView {
            username: self.username@,
            password: self.password@,
            path: self.path@,
            title: self.title@,
            stage: self.stage,
        }
    }
}

/// How many more events a run at `stage` can take at most.
pub open spec fn stages_left(stage: LogInStage) -> nat {
    match stage {
        LogInStage::LoadingPage => 3,
        LogInStage::Posting => 2,
        LogInStage::CheckingTitle => 1,
        LogInStage::Done => 0,
    }
}

/// Whether a run at `stage` is waiting for `event`.
pub open spec fn awaits(stage: LogInStage, event: LogInEvent) -> bool {
    match event {
        LogInEvent::PageLoaded { .. } => stage == LogInStage::LoadingPage,
        LogInEvent::FormPosted { .. } => stage == LogInStage::Posting,
        LogInEvent::TitleChecked { .. } => stage == LogInStage::CheckingTitle,
    }
}

/// The name of the log-in form, as its `data-drupal-selector` gives it.
pub open spec fn login_form_name() -> Seq<char> {
    "user-login-form"@
}

/// The name of the form element that holds the form's build id.
pub open spec fn build_id_name() -> Seq<char> {
    "form_build_id"@
}

impl LogInFlow {
    /// Starts a run. `env_user` and `env_pass` are the `GOOSE_USER` and
    /// `GOOSE_PASS` environment variables, where they are set; they win
    /// over the defaults in `login`.
    pub fn new(env_user: Option<&str>, env_pass: Option<&str>, login: Option<&Login>) -> (r:
        LogInFlow)
        ensures
            r@.username == resolved_username(opt_str_view(env_user), opt_login_view(login)),
            r@.password == resolved_password(opt_str_view(env_pass), opt_login_view(login)),
            r@.path == resolved_path(opt_login_view(login)),
            r@.title == resolved_title(opt_login_view(login), r@.username),
            r@.stage == LogInStage::LoadingPage,
    {
        let username = resolve_username(env_user, login);
        let password = resolve_password(env_pass, login);
        let path = resolve_path(login);
        let title = resolve_title(login, username.as_str());
        LogInFlow { username, password, path, title, stage: LogInStage::LoadingPage }
    }

    /// Where the run stands.
    pub fn stage(&self) -> (r: LogInStage)
        ensures
            r == self@.stage,
    {
        self.stage
    }

    /// The first thing to do: load the log-in page and check that it holds
    /// the log-in form.
    pub fn start(&self) -> (r: LogInAction)
        ensures
            r@ == (LogInActionView::LoadPage { path: self@.path, expect_text: login_form_marker() }),
    {
        LogInAction::LoadPage {
            path: self.path.clone(),
            expect_text: "<form class=\"user-login-form\"".to_owned(),
        }
    }

    /// Whether the run is waiting for `event`.
    pub fn awaits(&self, event: &LogInEvent) -> (r: bool)
        ensures
            r == awaits(self@.stage, *event),
    {
        match event {
            LogInEvent::PageLoaded { .. } => self.stage == LogInStage::LoadingPage,
            LogInEvent::FormPosted { .. } => self.stage == LogInStage::Posting,
            LogInEvent::TitleChecked { .. } => self.stage == LogInStage::CheckingTitle,
        }
    }

    /// Takes what came of the last action and decides the next one.
    ///
    /// Once the log-in page is loaded, the log-in form is looked up in it and
    /// the form's build id in the form; the log-in fields are posted to the
    /// run's log-in url when both are found, else the run fails giving back
    /// nothing. A post that was not redirected fails the run, giving back
    /// the response's text; one that was redirected leads to checking the
    /// title of the page it landed on, and that page ends the run.
    pub fn step(&mut self, event: LogInEvent) -> (r: LogInAction)
        requires
            awaits(old(self)@.stage, event),
        ensures
            final(self)@.username == old(self)@.username,
            final(self)@.password == old(self)@.password,
            final(self)@.path == old(self)@.path,
            final(self)@.title == old(self)@.title,
            stages_left(final(self)@.stage) < stages_left(old(self)@.stage),
            event matches LogInEvent::PageLoaded { html } ==> {
                let form_pattern = form_pattern_of(login_form_name());
                let value_pattern = form_value_pattern_of(build_id_name());
                let form = form_in(html@, login_form_name());
                if !regex_compiles(form_pattern) {
                    r@ == LogInActionView::PatternRefused && final(self)@.stage == LogInStage::Done
                } else if form is None {
                    &&& r@ == (LogInActionView::Fail {
                        message: missing_form_message_of(old(self)@.path),
                        detail: html@,
                        result: Seq::empty(),
                    })
                    &&& final(self)@.stage == LogInStage::Done
                } else if !regex_compiles(value_pattern) {
                    r@ == LogInActionView::PatternRefused && final(self)@.stage == LogInStage::Done
                } else {
                    match form_value_in(form.unwrap(), build_id_name()) {
                        None => {
                            &&& r@ == (LogInActionView::Fail {
                                message: missing_build_id_message_of(old(self)@.path),
                                detail: form.unwrap(),
                                result: Seq::empty(),
                            })
                            &&& final(self)@.stage == LogInStage::Done
                        },
                        Some(id) => {
                            &&& r@ == (LogInActionView::PostForm {
                                path: old(self)@.path,
                                params: login_params_of(
                                    old(self)@.username,
                                    old(self)@.password,
                                    id,
                                ),
                            })
                            &&& final(self)@.stage == LogInStage::Posting
                        },
                    }
                }
            },
            event matches LogInEvent::FormPosted { redirected, final_url, html } ==> if redirected {
                &&& r@ == (LogInActionView::CheckTitle { title: old(self)@.title })
                &&& final(self)@.stage == LogInStage::CheckingTitle
            } else {
                &&& r@ == (LogInActionView::Fail {
                    message: login_failed_message_of(final_url@),
                    detail: html@,
                    result: html@,
                })
                &&& final(self)@.stage == LogInStage::Done
            },
            event matches LogInEvent::TitleChecked { html } ==> {
                &&& r@ == (LogInActionView::Finish { html: html@ })
                &&& final(self)@.stage == LogInStage::Done
            },
    {
        match event {
            LogInEvent::PageLoaded { html } => {
                self.stage = LogInStage::Done;
                let form = match try_get_form(html.as_str(), "user-login-form") {
                    Ok(form) => form,
                    Err(_) => return LogInAction::PatternRefused,
                };
                let build_id = match &form {
                    None => None,
                    Some(f) => match try_get_form_value(f.as_str(), "form_build_id") {
                        Ok(id) => id,
                        Err(_) => return LogInAction::PatternRefused,
                    },
                };
                if form.is_some() && build_id.is_some() {
                    self.stage = LogInStage::Posting;
                }
                form_outcome(
                    self.username.as_str(),
                    self.password.as_str(),
                    self.path.as_str(),
                    html,
                    form,
                    build_id,
                )
            },
            LogInEvent::FormPosted { redirected, final_url, html } => {
                if redirected {
                    self.stage = LogInStage::CheckingTitle;
                    LogInAction::CheckTitle { title: self.title.clone() }
                } else {
                    self.stage = LogInStage::Done;
                    let message = login_failed_message(final_url.as_str());
                    let result = html.clone();
                    LogInAction::Fail { message, detail: html, result }
                }
            },
            LogInEvent::TitleChecked { html } => {
                self.stage = LogInStage::Done;
                LogInAction::Finish { html }
            },
        }
    }
}

} // verus!

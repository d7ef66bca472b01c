use goose_eggs::drupal::{
    form_outcome, login_failed_message, login_params, missing_build_id_message,
    missing_form_message, resolve_password, resolve_path, resolve_title, resolve_username,
    LogInAction, LogInEvent, LogInFlow, LogInStage, Login,
};

const PAGE: &str = r#"<html><form class="user-login-form" data-drupal-selector="user-login-form" action="/user/login">
<input type="hidden" name="form_build_id" value="form-abc" />
</form></html>"#;

const PAGE_NO_BUILD_ID: &str = r#"<html><form class="user-login-form" data-drupal-selector="user-login-form"><input name="name" value="" /></form></html>"#;

fn params(user: &str, pass: &str, id: &str) -> Vec<(String, String)> {
    vec![
        ("name".to_string(), user.to_string()),
        ("pass".to_string(), pass.to_string()),
        ("form_build_id".to_string(), id.to_string()),
        ("form_id".to_string(), "user_login_form".to_string()),
        ("op".to_string(), "Log+in".to_string()),
    ]
}

fn load(path: &str) -> LogInAction {
    LogInAction::LoadPage {
        path: path.to_string(),
        expect_text: "<form class=\"user-login-form\"".to_string(),
    }
}

#[test]
fn defaults_without_login() {
    assert_eq!(resolve_username(None, None), "username");
    assert_eq!(resolve_password(None, None), "password");
    assert_eq!(resolve_path(None), "/user/login");
    assert_eq!(resolve_title(None, "username"), "username");
}

#[test]
fn login_defaults_are_used() {
    let login = Login::new(Some("foo"), Some("bar"), Some("/custom/login/path"), Some("Custom Title"))
        .unwrap();
    assert_eq!(resolve_username(None, Some(&login)), "foo");
    assert_eq!(resolve_password(None, Some(&login)), "bar");
    assert_eq!(resolve_path(Some(&login)), "/custom/login/path");
    assert_eq!(resolve_title(Some(&login), "foo"), "Custom Title");
}

#[test]
fn environment_wins_over_login() {
    let login = Login::username_password("foo", "bar").unwrap();
    assert_eq!(resolve_username(Some("env-user"), Some(&login)), "env-user");
    assert_eq!(resolve_password(Some("env-pass"), Some(&login)), "env-pass");
    assert_eq!(resolve_username(Some("env-user"), None), "env-user");
}

#[test]
fn username_login_checks_username_in_title() {
    let login = Login::username("foo").unwrap();
    let flow = LogInFlow::new(None, None, Some(&login));
    assert_eq!(flow.start(), load("/user/login"));
    assert_eq!(resolve_title(Some(&login), "foo"), "foo");
    assert_eq!(resolve_password(None, Some(&login)), "password");
}

#[test]
fn builders_set_only_their_fields() {
    let login = Login::password("bar").unwrap();
    assert_eq!(resolve_username(None, Some(&login)), "username");
    assert_eq!(resolve_password(None, Some(&login)), "bar");
    let login = Login::url("/custom/user/login").unwrap();
    assert_eq!(resolve_path(Some(&login)), "/custom/user/login");
    assert_eq!(resolve_username(None, Some(&login)), "username");
    let login = Login::title("Custom title").unwrap();
    assert_eq!(resolve_title(Some(&login), "username"), "Custom title");
    assert_eq!(resolve_path(Some(&login)), "/user/login");
    let login = Login::url_title("/custom/login/path", "Custom title").unwrap();
    assert_eq!(resolve_path(Some(&login)), "/custom/login/path");
    assert_eq!(resolve_title(Some(&login), "username"), "Custom title");
}

#[test]
fn username_password_builds_same_as_new() {
    let a = Login::username_password("foo", "bar").unwrap();
    let b = Login::new(Some("foo"), Some("bar"), None, None).unwrap();
    for env in [None, Some("x")] {
        assert_eq!(resolve_username(env, Some(&a)), resolve_username(env, Some(&b)));
        assert_eq!(resolve_password(env, Some(&a)), resolve_password(env, Some(&b)));
    }
    assert_eq!(resolve_path(Some(&a)), resolve_path(Some(&b)));
    assert_eq!(resolve_title(Some(&a), "foo"), resolve_title(Some(&b), "foo"));
}

#[test]
fn updates_change_only_their_fields() {
    let login = Login::password("bar").unwrap().update_username("foo");
    assert_eq!(resolve_username(None, Some(&login)), "foo");
    assert_eq!(resolve_password(None, Some(&login)), "bar");

    let login = Login::username("foo").unwrap().update_password("bar");
    assert_eq!(resolve_username(None, Some(&login)), "foo");
    assert_eq!(resolve_password(None, Some(&login)), "bar");

    let login = Login::username_password("foo", "bar")
        .unwrap()
        .update_username_password("changed-username", "changed-password");
    assert_eq!(resolve_username(None, Some(&login)), "changed-username");
    assert_eq!(resolve_password(None, Some(&login)), "changed-password");

    let login = Login::username("foo").unwrap().update_url("/custom/user/login");
    assert_eq!(resolve_path(Some(&login)), "/custom/user/login");
    assert_eq!(resolve_username(None, Some(&login)), "foo");

    let login = Login::username("foo").unwrap().update_title("Custom Title");
    assert_eq!(resolve_title(Some(&login), "foo"), "Custom Title");
    assert_eq!(resolve_path(Some(&login)), "/user/login");

    let login = Login::username_password("foo", "password")
        .unwrap()
        .update_url_title("/custom/user/login", "Custom Title");
    assert_eq!(resolve_path(Some(&login)), "/custom/user/login");
    assert_eq!(resolve_title(Some(&login), "foo"), "Custom Title");
    assert_eq!(resolve_username(None, Some(&login)), "foo");
    assert_eq!(resolve_password(None, Some(&login)), "password");
}

#[test]
fn later_update_wins() {
    let login = Login::username("a").unwrap().update_username("b");
    assert_eq!(resolve_username(None, Some(&login)), "b");
    let login = Login::url("/a").unwrap().update_url_title("/b", "t").update_url("/c");
    assert_eq!(resolve_path(Some(&login)), "/c");
    assert_eq!(resolve_title(Some(&login), "u"), "t");
}

#[test]
fn messages() {
    assert_eq!(missing_form_message("/user/login"), "/user/login: no user-login-form on page");
    assert_eq!(missing_build_id_message("/x"), "/x: no form_build_id on page");
    assert_eq!(
        login_failed_message("http://example.com/user/login"),
        "http://example.com/user/login: login failed (check `GOOSE_USER` and `GOOSE_PASS`)"
    );
}

#[test]
fn params_in_order() {
    assert_eq!(login_params("foo", "bar", "form-1"), params("foo", "bar", "form-1"));
}

#[test]
fn form_outcome_cases() {
    assert_eq!(
        form_outcome("u", "p", "/login", "page".to_string(), None, None),
        LogInAction::Fail {
            message: "/login: no user-login-form on page".to_string(),
            detail: "page".to_string(),
            result: String::new(),
        }
    );
    assert_eq!(
        form_outcome("u", "p", "/login", "page".to_string(), Some("form".to_string()), None),
        LogInAction::Fail {
            message: "/login: no form_build_id on page".to_string(),
            detail: "form".to_string(),
            result: String::new(),
        }
    );
    assert_eq!(
        form_outcome("u", "p", "/login", "page".to_string(), Some("form".to_string()), Some("id".to_string())),
        LogInAction::PostForm { path: "/login".to_string(), params: params("u", "p", "id") }
    );
}

#[test]
fn successful_run() {
    let login = Login::username_password("foo", "bar").unwrap().update_url("/custom/login");
    let mut flow = LogInFlow::new(None, None, Some(&login));
    assert_eq!(flow.stage(), LogInStage::LoadingPage);
    assert_eq!(flow.start(), load("/custom/login"));
    let event = LogInEvent::PageLoaded { html: PAGE.to_string() };
    assert!(flow.awaits(&event));
    assert_eq!(
        flow.step(event),
        LogInAction::PostForm { path: "/custom/login".to_string(), params: params("foo", "bar", "form-abc") }
    );
    assert_eq!(flow.stage(), LogInStage::Posting);
    let event = LogInEvent::FormPosted {
        redirected: true,
        final_url: "http://example.com/user/1".to_string(),
        html: "welcome".to_string(),
    };
    assert!(flow.awaits(&event));
    assert!(!flow.awaits(&LogInEvent::TitleChecked { html: String::new() }));
    assert_eq!(flow.step(event), LogInAction::CheckTitle { title: "foo".to_string() });
    assert_eq!(flow.stage(), LogInStage::CheckingTitle);
    assert_eq!(
        flow.step(LogInEvent::TitleChecked { html: "<title>foo</title>".to_string() }),
        LogInAction::Finish { html: "<title>foo</title>".to_string() }
    );
    assert_eq!(flow.stage(), LogInStage::Done);
    assert!(!flow.awaits(&LogInEvent::TitleChecked { html: String::new() }));
}

#[test]
fn run_with_environment_and_custom_title() {
    let login = Login::title("Welcome").unwrap();
    let mut flow = LogInFlow::new(Some("env-user"), Some("env-pass"), Some(&login));
    assert_eq!(flow.start(), load("/user/login"));
    assert_eq!(
        flow.step(LogInEvent::PageLoaded { html: PAGE.to_string() }),
        LogInAction::PostForm {
            path: "/user/login".to_string(),
            params: params("env-user", "env-pass", "form-abc")
        }
    );
    let event = LogInEvent::FormPosted { redirected: true, final_url: String::new(), html: String::new() };
    assert_eq!(flow.step(event), LogInAction::CheckTitle { title: "Welcome".to_string() });
}

#[test]
fn run_without_login_form() {
    let mut flow = LogInFlow::new(None, None, None);
    assert_eq!(flow.start(), load("/user/login"));
    assert_eq!(
        flow.step(LogInEvent::PageLoaded { html: "<html></html>".to_string() }),
        LogInAction::Fail {
            message: "/user/login: no user-login-form on page".to_string(),
            detail: "<html></html>".to_string(),
            result: String::new(),
        }
    );
    assert_eq!(flow.stage(), LogInStage::Done);
}

#[test]
fn run_without_build_id() {
    let mut flow = LogInFlow::new(None, None, None);
    assert_eq!(
        flow.step(LogInEvent::PageLoaded { html: PAGE_NO_BUILD_ID.to_string() }),
        LogInAction::Fail {
            message: "/user/login: no form_build_id on page".to_string(),
            detail: r#"<form class="user-login-form" data-drupal-selector="user-login-form"><input name="name" value="" /></form>"#
                .to_string(),
            result: String::new(),
        }
    );
    assert_eq!(flow.stage(), LogInStage::Done);
}

#[test]
fn run_not_redirected() {
    let mut flow = LogInFlow::new(None, None, None);
    let _ = flow.step(LogInEvent::PageLoaded { html: PAGE.to_string() });
    assert_eq!(
        flow.step(LogInEvent::FormPosted {
            redirected: false,
            final_url: "http://example.com/user/login".to_string(),
            html: "bad password".to_string(),
        }),
        LogInAction::Fail {
            message: "http://example.com/user/login: login failed (check `GOOSE_USER` and `GOOSE_PASS`)"
                .to_string(),
            detail: "bad password".to_string(),
            result: "bad password".to_string(),
        }
    );
    assert_eq!(flow.stage(), LogInStage::Done);
}

#[test]
fn run_posts_build_id_of_login_form() {
    let page = r#"<form data-drupal-selector="search-block-form"><input name="form_build_id" value="search-id" /></form><form class="user-login-form" data-drupal-selector="user-login-form"><input name="form_build_id" value="login-id" /></form>"#;
    let mut flow = LogInFlow::new(None, None, None);
    assert_eq!(
        flow.step(LogInEvent::PageLoaded { html: page.to_string() }),
        LogInAction::PostForm { path: "/user/login".to_string(), params: params("username", "password", "login-id") }
    );
}

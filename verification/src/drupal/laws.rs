//! Properties that hold across the functions of this module.

use vstd::prelude::*;
use super::form::{
    form_in, form_pattern_of, form_value_in, form_value_pattern_of, not_newline, without_newlines,
};
use super::log_in::{
    login_params_of, resolved_password, resolved_path, resolved_title, resolved_username,
};
use crate::pattern::regex_capture;
use super::login::LoginView;

verus! {

/// No line feed is left once line feeds are removed.
pub proof fn law_no_newline_left(s: Seq<char>)
    ensures
        forall|i: int| 0 <= i < without_newlines(s).len() ==> without_newlines(s)[i] != '\n',
        without_newlines(s).len() <= s.len(),
    decreases s.len(),
{
    reveal(Seq::filter);
    if s.len() > 0 {
        law_no_newline_left(s.drop_last());
    }
}

/// Removing line feeds from text that has none leaves it as it is.
pub proof fn law_no_newline_unchanged(s: Seq<char>)
    requires
        forall|i: int| 0 <= i < s.len() ==> s[i] != '\n',
    ensures
        without_newlines(s) == s,
    decreases s.len(),
{
    reveal(Seq::filter);
    if s.len() > 0 {
        law_no_newline_unchanged(s.drop_last());
        assert(s.drop_last().push(s.last()) =~= s);
    }
}

/// Removing line feeds twice is removing them once.
pub proof fn law_remove_newlines_idempotent(s: Seq<char>)
    ensures
        without_newlines(without_newlines(s)) == without_newlines(s),
{
    law_no_newline_left(s);
    law_no_newline_unchanged(without_newlines(s));
}

/// Line feeds in the page make no difference to the form found: the page
/// with its line feeds removed gives the same form as the page itself.
pub proof fn law_get_form_ignores_newlines(html: Seq<char>, name: Seq<char>)
    ensures
        form_in(without_newlines(html), name) == form_in(html, name),
{
    law_remove_newlines_idempotent(html);
}

/// A set `GOOSE_USER` and `GOOSE_PASS` win over any defaults.
pub proof fn law_environment_wins(user: Seq<char>, pass: Seq<char>, login: Option<LoginView>)
    ensures
        resolved_username(Some(user), login) == user,
        resolved_password(Some(pass), login) == pass,
{
}

/// With no custom title, log-in is checked by the username in the title.
pub proof fn law_default_title_is_username(login: Option<LoginView>, username: Seq<char>)
    requires
        login matches Some(l) ==> l.title is None,
    ensures
        resolved_title(login, username) == username,
{
}

/// A `Login` that sets only a username logs in as that user, unless
/// `GOOSE_USER` is set, and then expects that username in the title.
pub proof fn law_username_login(username: Seq<char>)
    ensures
        ({
            let login = Some(LoginView::empty().with_username(username));
            &&& resolved_username(None, login) == username
            &&& resolved_password(None, login) == "password"@
            &&& resolved_title(login, resolved_username(None, login)) == username
        }),
{
}

/// With neither a `Login` nor the environment, the run logs in as
/// `username` with `password` and expects `username` in the title.
pub proof fn law_defaults(login: Option<LoginView>)
    requires
        login is None || login == Some(LoginView::empty()),
    ensures
        resolved_username(None, login) == "username"@,
        resolved_password(None, login) == "password"@,
        resolved_title(login, resolved_username(None, login)) == "username"@,
{
}

/// Updates of different defaults can be made in either order: setting the
/// url and then the title gives what setting the title and then the url
/// gives, and likewise for the username and the password.
pub proof fn law_combined_updates(l: LoginView, a: Seq<char>, b: Seq<char>)
    ensures
        l.with_url(a).with_title(b) == l.with_title(b).with_url(a),
        l.with_username(a).with_password(b) == l.with_password(b).with_username(a),
{
}

/// A later update of a default replaces an earlier one; updates of
/// different defaults do not disturb each other.
pub proof fn law_last_update_wins(l: LoginView, a: Seq<char>, b: Seq<char>)
    ensures
        l.with_username(a).with_username(b) == l.with_username(b),
        l.with_password(a).with_password(b) == l.with_password(b),
        l.with_url(a).with_url(b) == l.with_url(b),
        l.with_title(a).with_title(b) == l.with_title(b),
        l.with_username(a).with_title(b).username == Some(a),
        l.with_username(a).with_title(b).password == l.password,
{
}

/// Removing line feeds works piece by piece: on joined text it is the
/// join of the results on each piece, whatever their lengths.
pub proof fn law_remove_newlines_concat(a: Seq<char>, b: Seq<char>)
    ensures
        without_newlines(a + b) == without_newlines(a) + without_newlines(b),
{
    Seq::filter_distributes_over_add(a, b, |c: char| not_newline(c));
}

/// On a single character, removing line feeds drops a line feed and keeps
/// anything else. With `law_remove_newlines_concat` this fixes the result
/// on every text.
pub proof fn law_remove_newlines_single(c: char)
    ensures
        without_newlines(seq![c]) == (if c == '\n' { Seq::<char>::empty() } else { seq![c] }),
{
    reveal(Seq::filter);
    let e = Seq::<char>::empty();
    assert(seq![c].drop_last() =~= e);
    assert(without_newlines(e) =~= e);
    assert(seq![c].last() == c);
    assert(e.push(c) =~= seq![c]);
}

/// The form is looked up over the whole page, of any length: it is the
/// leftmost match of the form's pattern in the page with every line feed
/// removed and nothing else cut.
pub proof fn law_form_searches_whole_page(html: Seq<char>, name: Seq<char>)
    ensures
        form_in(html, name) == regex_capture(form_pattern_of(name), without_newlines(html), 0),
{
}

/// A form value is looked up over the whole form HTML, of any length, as it
/// is: it is group 1 of the leftmost match of the value's pattern there.
pub proof fn law_form_value_searches_whole_form(form_html: Seq<char>, name: Seq<char>)
    ensures
        form_value_in(form_html, name) == regex_capture(form_value_pattern_of(name), form_html, 1),
{
}

/// The log-in post carries the username, the password and the build id as
/// they are, then the form's id and the submit button, in that order.
pub proof fn law_login_params_carry_inputs(username: Seq<char>, password: Seq<char>, build_id: Seq<
    char,
>)
    ensures
        login_params_of(username, password, build_id).len() == 5,
        login_params_of(username, password, build_id)[0] == ("name"@, username),
        login_params_of(username, password, build_id)[1] == ("pass"@, password),
        login_params_of(username, password, build_id)[2] == ("form_build_id"@, build_id),
        login_params_of(username, password, build_id)[3] == ("form_id"@, "user_login_form"@),
        login_params_of(username, password, build_id)[4] == ("op"@, "Log+in"@),
{
}

/// With the environment unset, each default a `Login` sets is used as it
/// is: its username, its password, its url and its title.
pub proof fn law_login_defaults_used_as_set(l: LoginView, username: Seq<char>)
    ensures
        l.username matches Some(u) ==> resolved_username(None, Some(l)) == u,
        l.password matches Some(p) ==> resolved_password(None, Some(l)) == p,
        l.url matches Some(u) ==> resolved_path(Some(l)) == u,
        l.title matches Some(t) ==> resolved_title(Some(l), username) == t,
        l.url is None ==> resolved_path(Some(l)) == "/user/login"@,
        resolved_path(None) == "/user/login"@,
{
}

} // verus!

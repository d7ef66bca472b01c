//! The defaults for logging in through the standard Drupal user-login-form.

use vstd::prelude::*;

verus! {

/// The view of an optional string slice.
pub open spec fn opt_str_view(o: Option<&str>) -> Option<Seq<char>> {
    match o {
        Some(s) => Some(s@),
        None => None,
    }
}

/// What a `Login` holds: each default that was set, as text.
pub struct LoginView {
    pub username: Option<Seq<char>>,
    pub password: Option<Seq<char>>,
    pub url: Option<Seq<char>>,
    pub title: Option<Seq<char>>,
}

/// Set one or more defaults when logging in through the standard drupal
/// user-login-form: a custom default username and/or password and/or log in
/// url and/or the required title after login.
pub struct Login<'a> {
    // Optionally set a default username.
    username: Option<&'a str>,
    // Optionally set a default password.
    password: Option<&'a str>,
    // Optionally set a custom default path (otherwise defaults to `/user/login`).
    url: Option<&'a str>,
    // Optionally set a custom title to validate.
    title: Option<&'a str>,
}

impl LoginView {
    /// No default set.
    pub open spec fn empty() -> LoginView {
        LoginView { username: None, password: None, url: None, title: None }
    }

    /// `self` with the default username set to `username`.
    pub open spec fn with_username(self, username: Seq<char>) -> LoginView {
        LoginView { username: Some(username), ..self }
    }

    /// `self` with the default password set to `password`.
    pub open spec fn with_password(self, password: Seq<char>) -> LoginView {
        LoginView { password: Some(password), ..self }
    }

    /// `self` with the log-in url set to `url`.
    pub open spec fn with_url(self, url: Seq<char>) -> LoginView {
        LoginView { url: Some(url), ..self }
    }

    /// `self` with the expected title set to `title`.
    pub open spec fn with_title(self, title: Seq<char>) -> LoginView {
        LoginView { title: Some(title), ..self }
    }
}

impl<'a> View for Login<'a> {
    type V = LoginView;

    closed spec fn view(&self) -> LoginView {
        LoginView {
            username: opt_str_view(self.username),
            password: opt_str_view(self.password),
            url: opt_str_view(self.url),
            title: opt_str_view(self.title),
        }
    }
}

impl<'a> Login<'a> {
    /// The default username, if one was set.
    pub(crate) fn default_username(&self) -> (r: Option<&'a str>)
        ensures
            opt_str_view(r) == self@.username,
    {
        self.username
    }

    /// The default password, if one was set.
    pub(crate) fn default_password(&self) -> (r: Option<&'a str>)
        ensures
            opt_str_view(r) == self@.password,
    {
        self.password
    }

    /// The custom log-in path, if one was set.
    pub(crate) fn custom_url(&self) -> (r: Option<&'a str>)
        ensures
            opt_str_view(r) == self@.url,
    {
        self.url
    }

    /// The custom title expected after log-in, if one was set.
    pub(crate) fn custom_title(&self) -> (r: Option<&'a str>)
        ensures
            opt_str_view(r) == self@.title,
    {
        self.title
    }

    /// Create a new Login object, specifying `username`, `password`, `url`,
    /// and expected `title`.
    pub fn new(
        username: Option<&'a str>,
        password: Option<&'a str>,
        url: Option<&'a str>,
        title: Option<&'a str>,
    ) -> (r: Option<Login<'a>>)
        ensures
            r matches Some(l) && l@ == (LoginView {
                username: opt_str_view(username),
                password: opt_str_view(password),
                url: opt_str_view(url),
                title: opt_str_view(title),
            }),
    {
        Some(Login { username, password, url, title })
    }

    /// Create a Login object setting a custom default username.
    pub fn username(username: &'a str) -> (r: Option<Login<'a>>)
        ensures
            r matches Some(l) && l@ == LoginView::empty().with_username(username@),
    {
        Login::new(Some(username), None, None, None)
    }

    /// Create a Login object setting a custom default password.
    pub fn password(password: &'a str) -> (r: Option<Login<'a>>)
        ensures
            r matches Some(l) && l@ == LoginView::empty().with_password(password@),
    {
        Login::new(None, Some(password), None, None)
    }

    /// Create a Login object setting a custom default username and password.
    pub fn username_password(username: &'a str, password: &'a str) -> (r: Option<Login<'a>>)
        ensures
            r matches Some(l) && l@ == LoginView::empty().with_username(username@).with_password(
                password@,
            ),
    {
        Login::new(Some(username), Some(password), None, None)
    }

    /// Create a Login object with a custom default login url.
    pub fn url(url: &'a str) -> (r: Option<Login<'a>>)
        ensures
            r matches Some(l) && l@ == LoginView::empty().with_url(url@),
    {
        Login::new(None, None, Some(url), None)
    }

    /// Create a Login object with a custom expected title after login.
    pub fn title(title: &'a str) -> (r: Option<Login<'a>>)
        ensures
            r matches Some(l) && l@ == LoginView::empty().with_title(title@),
    {
        Login::new(None, None, None, Some(title))
    }

    /// Create a Login object with custom default url and a custom expected
    /// title after login.
    pub fn url_title(url: &'a str, title: &'a str) -> (r: Option<Login<'a>>)
        ensures
            r matches Some(l) && l@ == LoginView::empty().with_url(url@).with_title(title@),
    {
        Login::new(None, None, Some(url), Some(title))
    }

    /// Update a Login object, changing the default username. The password,
    /// url and title fields will not be changed.
    pub fn update_username(self, username: &'a str) -> (r: Self)
        ensures
            r@ == self@.with_username(username@),
    {
        let mut login = self;
        login.username = Some(username);
        login
    }

    /// Update a Login object, changing the default password. The username,
    /// url and title fields will not be changed.
    pub fn update_password(self, password: &'a str) -> (r: Self)
        ensures
            r@ == self@.with_password(password@),
    {
        let mut login = self;
        login.password = Some(password);
        login
    }

    /// Update a Login object, changing the default username and password.
    /// The url and title fields will not be changed.
    pub fn update_username_password(self, username: &'a str, password: &'a str) -> (r: Self)
        ensures
            r@ == self@.with_username(username@).with_password(password@),
    {
        let mut login = self;
        login.username = Some(username);
        login.password = Some(password);
        login
    }

    /// Update a Login object, changing the default login url. The username,
    /// password and title fields will not be changed.
    pub fn update_url(self, url: &'a str) -> (r: Self)
        ensures
            r@ == self@.with_url(url@),
    {
        let mut login = self;
        login.url = Some(url);
        login
    }

    /// Update a Login object, changing the expected title after login. The
    /// username, password and url fields will not be changed.
    pub fn update_title(self, title: &'a str) -> (r: Self)
        ensures
            r@ == self@.with_title(title@),
    {
        let mut login = self;
        login.title = Some(title);
        login
    }

    /// Update a Login object, changing the default login url and the
    /// expected title after login. The username and password fields will not
    /// be changed.
    pub fn update_url_title(self, url: &'a str, title: &'a str) -> (r: Self)
        ensures
            r@ == self@.with_url(url@).with_title(title@),
    {
        let mut login = self;
        login.url = Some(url);
        login.title = Some(title);
        login
    }
}

} // verus!

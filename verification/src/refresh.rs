//! The two-step login cascade that establishes or re-establishes the
//! token and session values: request the landing page, then submit the
//! login form. A failure in the first step short-circuits the second.

use vstd::prelude::*;
use crate::cookie::session_after;
use crate::cookie::token_after;
use crate::error::OsuMapDownloadError;
use crate::request::HttpMethod;
use crate::request::HttpRequest;
use crate::session::UserSession;
use crate::session::cookie_str;
use crate::session::new_cookie;

verus! {

#[derive(Debug, Clone, PartialEq, Eq)]
pub enum RefreshPhase {
    /// The landing-page request has not been answered yet.
    AwaitingHome,
    /// The landing page succeeded; the login form is outstanding.
    AwaitingLogin,
    /// Both steps succeeded.
    Succeeded,
    /// A step failed; the flow is over and is never retried.
    Failed { error: OsuMapDownloadError },
}

/// The refresh cascade as a state machine. The caller performs the
/// requests this type describes and hands back each response's status and
/// `set-cookie` values; the flow decides everything else. The login
/// request can only be built while the flow is awaiting it, so a failed
/// first step makes the second step impossible, not merely skipped.
pub struct RefreshFlow {
    phase: RefreshPhase,
}

impl RefreshFlow {
    pub closed spec fn phase(&self) -> RefreshPhase {
        self.phase
    }

    /// Starts a refresh cascade at its first step.
    pub fn new() -> (r: RefreshFlow)
        ensures
            r.phase() == RefreshPhase::AwaitingHome,
    {
        RefreshFlow { phase: RefreshPhase::AwaitingHome }
    }

    /// Whether the flow still awaits the landing-page response.
    pub fn is_awaiting_home(&self) -> (b: bool)
        ensures
            b == (self.phase() is AwaitingHome),
    {
        matches!(self.phase, RefreshPhase::AwaitingHome)
    }

    /// Whether the flow awaits the login response.
    pub fn is_awaiting_login(&self) -> (b: bool)
        ensures
            b == (self.phase() is AwaitingLogin),
    {
        matches!(self.phase, RefreshPhase::AwaitingLogin)
    }

    /// Whether both steps succeeded.
    pub fn is_succeeded(&self) -> (b: bool)
        ensures
            b == (self.phase() is Succeeded),
    {
        matches!(self.phase, RefreshPhase::Succeeded)
    }

    /// The error the cascade failed with, if it failed.
    pub fn failure(&self) -> (r: Option<&OsuMapDownloadError>)
        ensures
            match r {
                Some(e) => self.phase() == (RefreshPhase::Failed { error: *e }),
                None => !(self.phase() is Failed),
            },
    {
        match &self.phase {
            RefreshPhase::Failed { error } => Some(error),
            _ => None,
        }
    }

    /// The first request of the cascade: the landing page, with the
    /// current (possibly empty) cookie values.
    pub fn home_request(&self, user: &UserSession) -> (r: HttpRequest)
        requires
            self.phase() is AwaitingHome,
        ensures
            r.method is Get,
            r.url@ == "https://osu.ppy.sh/home"@,
            r.headers@.len() == 1,
            r.headers@[0].0@ == "cookie"@,
            r.headers@[0].1@ == cookie_str(user@.token, user@.session),
            r.form@.len() == 0,
    {
        let mut headers: Vec<(String, String)> = Vec::new();
        headers.push(("cookie".to_owned(), new_cookie(user.token_str(), user.session_str())));
        HttpRequest {
            method: HttpMethod::Get,
            url: "https://osu.ppy.sh/home".to_owned(),
            headers,
            form: Vec::new(),
        }
    }

    /// Classifies the landing-page response. HTTP 200 updates the session
    /// from the response's `set-cookie` values and moves to the login
    /// step; HTTP 400 fails the cascade with `IncorrectCredentials`; any
    /// other status fails it with `UnknownSessionError`. On failure the
    /// session is untouched.
    pub fn on_home_response(
        &mut self,
        user: &mut UserSession,
        status: u16,
        set_cookies: &Vec<String>,
    )
        requires
            old(self).phase() is AwaitingHome,
        ensures
            status == 200 ==> final(self).phase() is AwaitingLogin && final(user)@.name
                == old(user)@.name && final(user)@.password == old(user)@.password
                && final(user)@.token == token_after(set_cookies.deep_view(), old(user)@.token)
                && final(user)@.session == session_after(
                set_cookies.deep_view(),
                old(user)@.session,
            ),
            status == 400 ==> final(self).phase() == (RefreshPhase::Failed {
                error: OsuMapDownloadError::IncorrectCredentials,
            }) && *final(user) == *old(user),
            status != 200 && status != 400 ==> final(self).phase() == (RefreshPhase::Failed {
                error: OsuMapDownloadError::UnknownSessionError,
            }) && *final(user) == *old(user),
    {
        if status == 200 {
            user.update(set_cookies);
            self.phase = RefreshPhase::AwaitingLogin;
        } else if status == 400 {
            self.phase = RefreshPhase::Failed { error: OsuMapDownloadError::IncorrectCredentials };
        } else {
            self.phase = RefreshPhase::Failed { error: OsuMapDownloadError::UnknownSessionError };
        }
    }

    /// The second request of the cascade: the login form, carrying the
    /// token obtained by the first step, the credentials, and the current
    /// cookie values.
    pub fn login_request(&self, user: &UserSession) -> (r: HttpRequest)
        requires
            self.phase() is AwaitingLogin,
        ensures
            r.method is Post,
            r.url@ == "https://osu.ppy.sh/session"@,
            r.headers@.len() == 3,
            r.headers@[0].0@ == "referer"@ && r.headers@[0].1@ == "https://osu.ppy.sh/home"@,
            r.headers@[1].0@ == "content-type"@ && r.headers@[1].1@
                == "application/x-www-form-urlencoded"@,
            r.headers@[2].0@ == "cookie"@ && r.headers@[2].1@ == cookie_str(
                user@.token,
                user@.session,
            ),
            r.form@.len() == 3,
            r.form@[0].0@ == "_token"@ && r.form@[0].1@ == user@.token,
            r.form@[1].0@ == "username"@ && r.form@[1].1@ == user@.name,
            r.form@[2].0@ == "password"@ && r.form@[2].1@ == user@.password,
    {
        let mut headers: Vec<(String, String)> = Vec::new();
        headers.push(("referer".to_owned(), "https://osu.ppy.sh/home".to_owned()));
        headers.push(("content-type".to_owned(), "application/x-www-form-urlencoded".to_owned()));
        headers.push(("cookie".to_owned(), new_cookie(user.token_str(), user.session_str())));
        HttpRequest {
            method: HttpMethod::Post,
            url: "https://osu.ppy.sh/session".to_owned(),
            headers,
            form: user.login_form(),
        }
    }

    /// Classifies the login response. HTTP 200 updates the session and
    /// completes the cascade; HTTP 403 fails it with
    /// `IncorrectCredentials`; any other status fails it with
    /// `UnknownSessionError`. On failure the session is untouched.
    pub fn on_login_response(
        &mut self,
        user: &mut UserSession,
        status: u16,
        set_cookies: &Vec<String>,
    )
        requires
            old(self).phase() is AwaitingLogin,
        ensures
            status == 200 ==> final(self).phase() == RefreshPhase::Succeeded && final(user)@.name
                == old(user)@.name && final(user)@.password == old(user)@.password
                && final(user)@.token == token_after(set_cookies.deep_view(), old(user)@.token)
                && final(user)@.session == session_after(
                set_cookies.deep_view(),
                old(user)@.session,
            ),
            status == 403 ==> final(self).phase() == (RefreshPhase::Failed {
                error: OsuMapDownloadError::IncorrectCredentials,
            }) && *final(user) == *old(user),
            status != 200 && status != 403 ==> final(self).phase() == (RefreshPhase::Failed {
                error: OsuMapDownloadError::UnknownSessionError,
            }) && *final(user) == *old(user),
    {
        if status == 200 {
            user.update(set_cookies);
            self.phase = RefreshPhase::Succeeded;
        } else if status == 403 {
            self.phase = RefreshPhase::Failed { error: OsuMapDownloadError::IncorrectCredentials };
        } else {
            self.phase = RefreshPhase::Failed { error: OsuMapDownloadError::UnknownSessionError };
        }
    }
}

/// A first step answered with HTTP 400 fails the whole cascade with
/// `IncorrectCredentials`, and the flow is then neither awaiting the
/// landing page nor awaiting the login step: `login_request` and
/// `on_login_response` require an awaiting-login flow, so the login
/// endpoint cannot be called at all on this cascade.
pub proof fn lemma_home_failure_short_circuits(flow: RefreshFlow)
    requires
        flow.phase() == (RefreshPhase::Failed {
            error: OsuMapDownloadError::IncorrectCredentials,
        }),
    ensures
        !(flow.phase() is AwaitingLogin),
        !(flow.phase() is AwaitingHome),
        !(flow.phase() is Succeeded),
{
}

} // verus!

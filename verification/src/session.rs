//! The user session: credentials, the two volatile values the extractor
//! produces, header construction and session persistence.

use vstd::prelude::*;
use crate::cookie::session_after;
use crate::cookie::token_after;
use crate::cookie::extract_session;
use crate::cookie::extract_token;
use crate::error::OsuMapDownloadError;
use crate::text::CharClass;
use crate::text::char_find;
use crate::text::chars_of;
use crate::text::find_char;
use crate::text::find_pair;
use crate::text::find_pair_bounds;
use crate::text::lemma_char_find;
use crate::text::lemma_find_pair_bounds;
use crate::text::seq_all_in_class;
use crate::text::str_all_in_class;

verus! {

/// The mathematical content of a session: the four strings it owns.
pub ghost struct SessionView {
    pub name: Seq<char>,
    pub password: Seq<char>,
    pub token: Seq<char>,
    pub session: Seq<char>,
}

/// A user's credentials together with the anti-forgery token and session
/// identifier most recently extracted from the service's responses. The
/// secret is held only in memory and never serialized.
pub struct UserSession {
    name: String,
    password: String,
    token: String,
    session: String,
}

impl View for UserSession {
    type V = SessionView;

    closed spec fn view(&self) -> SessionView {
        SessionView {
            name: self.name@,
            password: self.password@,
            token: self.token@,
            session: self.session@,
        }
    }
}

/// An account name is non-empty and holds only word characters, spaces,
/// hyphens and square brackets.
pub open spec fn valid_username(s: Seq<char>) -> bool {
    s.len() > 0 && seq_all_in_class(s, CharClass::Name)
}

/// Whether `name` is an acceptable account name.
pub fn check_username(name: &str) -> (b: bool)
    ensures
        b == valid_username(name@),
{
    !name.is_empty() && str_all_in_class(name, CharClass::Name)
}

/// The outbound cookie header value carrying both volatile values.
pub open spec fn cookie_str(token: Seq<char>, session: Seq<char>) -> Seq<char> {
    "XSRF-TOKEN="@ + token + "; osu_session="@ + session + ";"@
}

/// Builds the cookie header value for the given token and session values.
pub fn new_cookie(xsrf: &str, cookie: &str) -> (r: String)
    ensures
        r@ == cookie_str(xsrf@, cookie@),
{
    let mut s = "XSRF-TOKEN=".to_owned();
    s.append(xsrf);
    s.append("; osu_session=");
    s.append(cookie);
    s.append(";");
    proof {
        assert(s@ =~= cookie_str(xsrf@, cookie@));
    }
    s
}

/// Builds the cookie header value; same contract as `new_cookie`.
pub fn format_cookie_str(xsrf: &str, cookie: &str) -> (r: String)
    ensures
        r@ == cookie_str(xsrf@, cookie@),
{
    new_cookie(xsrf, cookie)
}

/// The detail-page URL of a beatmap set, used as the referer of its
/// download request.
pub open spec fn beatmapset_url(id: Seq<char>) -> Seq<char> {
    "https://osu.ppy.sh/beatmapsets/"@ + id
}

/// The first field of the saved pair: non-empty, word characters only.
pub open spec fn valid_token_chars(t: Seq<char>) -> bool {
    t.len() > 0 && seq_all_in_class(t, CharClass::Word)
}

/// The second field of the saved pair: non-empty, word or percent
/// characters.
pub open spec fn valid_session_chars(t: Seq<char>) -> bool {
    t.len() > 0 && seq_all_in_class(t, CharClass::WordPercent)
}

/// The two comma-delimited fields of a saved session string: the text
/// before the first comma, and the text between the first and the second
/// comma (or the end). `None` when there is no comma at all.
pub open spec fn split_fields(data: Seq<char>) -> Option<(Seq<char>, Seq<char>)> {
    let c1 = char_find(data, ',', 0);
    if c1 == data.len() {
        None
    } else {
        Some((data.take(c1), data.subrange(c1 + 1, char_find(data, ',', c1 + 1))))
    }
}

/// The token and session values a saved string restores: its two fields,
/// provided both are well-formed.
pub open spec fn recovered(data: Seq<char>) -> Option<(Seq<char>, Seq<char>)> {
    match split_fields(data) {
        Some(p) => if valid_token_chars(p.0) && valid_session_chars(p.1) {
            Some(p)
        } else {
            None
        },
        None => None,
    }
}

impl UserSession {
    /// Creates a fresh, unauthenticated session for the given account.
    /// Fails only on a malformed account name.
    pub fn new(username: &str, password: &str) -> (r: Result<UserSession, OsuMapDownloadError>)
        ensures
            match r {
                Ok(u) => valid_username(username@) && u@.name == username@ && u@.password
                    == password@ && u@.token == Seq::<char>::empty() && u@.session == Seq::<
                    char,
                >::empty(),
                Err(e) => !valid_username(username@) && e
                    == OsuMapDownloadError::ConstructionError,
            },
    {
        if !check_username(username) {
            return Err(OsuMapDownloadError::ConstructionError);
        }
        Ok(
            UserSession {
                name: username.to_owned(),
                password: password.to_owned(),
                token: String::new(),
                session: String::new(),
            },
        )
    }

    /// The account name.
    pub fn username(&self) -> (r: &str)
        ensures
            r@ == self@.name,
    {
        self.name.as_str()
    }

    /// The current anti-forgery token; empty until a response supplies one.
    pub fn token_str(&self) -> (r: &str)
        ensures
            r@ == self@.token,
    {
        self.token.as_str()
    }

    /// The current session identifier; empty until a response supplies one.
    pub fn session_str(&self) -> (r: &str)
        ensures
            r@ == self@.session,
    {
        self.session.as_str()
    }

    /// A session is presumptively authenticated when both volatile values
    /// are present; the remote service may still reject it.
    pub fn is_presumptively_authenticated(&self) -> (b: bool)
        ensures
            b == (self@.token.len() > 0 && self@.session.len() > 0),
    {
        !self.token.as_str().is_empty() && !self.session.as_str().is_empty()
    }

    /// The request headers for the detail page of set `id`: the cookie
    /// header built from the current values, the referer, and the fixed
    /// content type.
    pub fn new_header(&self, id: &str) -> (h: Vec<(String, String)>)
        ensures
            h@.len() == 3,
            h@[0].0@ == "cookie"@ && h@[0].1@ == cookie_str(self@.token, self@.session),
            h@[1].0@ == "referer"@ && h@[1].1@ == beatmapset_url(id@),
            h@[2].0@ == "content-type"@ && h@[2].1@ == "application/x-www-form-urlencoded"@,
    {
        let mut url = "https://osu.ppy.sh/beatmapsets/".to_owned();
        url.append(id);
        let mut h: Vec<(String, String)> = Vec::new();
        h.push(("cookie".to_owned(), new_cookie(self.token.as_str(), self.session.as_str())));
        h.push(("referer".to_owned(), url));
        h.push(("content-type".to_owned(), "application/x-www-form-urlencoded".to_owned()));
        h
    }

    /// The URL-encoded form fields of the login request: the anti-forgery
    /// token and the credentials.
    pub fn login_form(&self) -> (b: Vec<(String, String)>)
        ensures
            b@.len() == 3,
            b@[0].0@ == "_token"@ && b@[0].1@ == self@.token,
            b@[1].0@ == "username"@ && b@[1].1@ == self@.name,
            b@[2].0@ == "password"@ && b@[2].1@ == self@.password,
    {
        let mut b: Vec<(String, String)> = Vec::new();
        b.push(("_token".to_owned(), self.token.clone()));
        b.push(("username".to_owned(), self.name.clone()));
        b.push(("password".to_owned(), self.password.clone()));
        b
    }

    /// Updates the token and session values from the `set-cookie` values of
    /// one response. For each kind, the first matching header wins; a kind
    /// with no match keeps its previous value.
    pub fn update(&mut self, headers: &Vec<String>)
        ensures
            final(self)@.name == old(self)@.name,
            final(self)@.password == old(self)@.password,
            final(self)@.token == token_after(headers.deep_view(), old(self)@.token),
            final(self)@.session == session_after(headers.deep_view(), old(self)@.session),
    {
        let ghost hs = headers.deep_view();
        let ghost orig = self@;
        let n = headers.len();
        let mut i: usize = 0;
        let mut token_found = false;
        let mut session_found = false;
        while i < n && !(token_found && session_found)
            invariant
                i <= n,
                n == hs.len(),
                hs == headers.deep_view(),
                self@.name == orig.name,
                self@.password == orig.password,
                !token_found ==> crate::cookie::first_token_from(hs, 0)
                    == crate::cookie::first_token_from(hs, i as int) && self@.token == orig.token,
                token_found ==> crate::cookie::first_token_from(hs, 0) == Some(self@.token),
                !session_found ==> crate::cookie::first_session_from(hs, 0)
                    == crate::cookie::first_session_from(hs, i as int) && self@.session
                    == orig.session,
                session_found ==> crate::cookie::first_session_from(hs, 0) == Some(self@.session),
            decreases n - i,
        {
            let h = &headers[i];
            proof {
                assert(hs[i as int] == headers@[i as int]@);
            }
            if !token_found {
                match extract_token(h.as_str()) {
                    Some(t) => {
                        self.token = t;
                        token_found = true;
                    },
                    None => {},
                }
            }
            if !session_found {
                match extract_session(h.as_str()) {
                    Some(t) => {
                        self.session = t;
                        session_found = true;
                    },
                    None => {},
                }
            }
            i += 1;
        }
    }

    /// Serializes the current token and session values, never the secret.
    pub fn save_session(&self) -> (r: String)
        ensures
            r@ == self@.token + "&"@ + self@.session,
    {
        let mut s = self.token.clone();
        s.append("&");
        s.append(self.session.as_str());
        proof {
            assert(s@ =~= self@.token + "&"@ + self@.session);
        }
        s
    }

    /// Restores the token and session values from a string `save_session`
    /// produced. A string with no well-formed pair leaves the session
    /// unchanged.
    pub fn read_session(&mut self, data: &str)
        ensures
            final(self)@.name == old(self)@.name,
            final(self)@.password == old(self)@.password,
            match find_pair(data@, '&') {
                Some(p) => final(self)@.token == data@.subrange(p.0, p.1) && final(self)@.session
                    == data@.subrange(p.1 + 1, p.2),
                None => *final(self) == *old(self),
            },
    {
        let chars = chars_of(data);
        match find_pair_bounds(&chars, '&') {
            Some(p) => {
                proof {
                    lemma_find_pair_bounds(data@, '&', 0);
                }
                self.token = data.substring_char(p.0, p.1).to_owned();
                self.session = data.substring_char(p.1 + 1, p.2).to_owned();
            },
            None => {},
        }
    }

    /// Serializes the current token and session values as the two-field,
    /// comma-delimited saved form; never includes the secret.
    pub fn to_recoverable(&self) -> (r: String)
        ensures
            r@ == self@.token + ","@ + self@.session,
    {
        let mut s = self.token.clone();
        s.append(",");
        s.append(self.session.as_str());
        proof {
            assert(s@ =~= self@.token + ","@ + self@.session);
        }
        s
    }

    /// Restores a session from the saved two-field string. Fails when the
    /// string has fewer than two fields or a malformed field; the restored
    /// session carries no secret.
    pub fn from_recoverable(username: &str, data: &str) -> (r: Option<UserSession>)
        ensures
            match r {
                Some(u) => recovered(data@) == Some((u@.token, u@.session)) && u@.name == username@
                    && u@.password == Seq::<char>::empty(),
                None => recovered(data@) is None,
            },
    {
        let chars = chars_of(data);
        let n = chars.len();
        proof {
            lemma_char_find(data@, ',', 0);
        }
        let c1 = find_char(&chars, ',', 0);
        if c1 == n {
            return None;
        }
        proof {
            lemma_char_find(data@, ',', c1 + 1);
        }
        let c2 = find_char(&chars, ',', c1 + 1);
        let token = data.substring_char(0, c1).to_owned();
        let sess = data.substring_char(c1 + 1, c2).to_owned();
        proof {
            assert(data@.take(c1 as int) =~= data@.subrange(0, c1 as int));
        }
        if token.as_str().is_empty() || !str_all_in_class(token.as_str(), CharClass::Word) {
            return None;
        }
        if sess.as_str().is_empty() || !str_all_in_class(sess.as_str(), CharClass::WordPercent) {
            return None;
        }
        Some(
            UserSession {
                name: username.to_owned(),
                password: String::new(),
                token,
                session: sess,
            },
        )
    }
}

} // verus!

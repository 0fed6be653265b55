use osu_map_download::error::OsuMapDownloadError;
use osu_map_download::refresh::RefreshFlow;
use osu_map_download::request::HttpMethod;
use osu_map_download::session::UserSession;
use osu_map_download::session::new_cookie;

#[test]
fn test_refresh_success_cascade() {
    let mut user = UserSession::new("player", "secret").unwrap();
    let mut flow = RefreshFlow::new();
    assert!(flow.is_awaiting_home());

    let req = flow.home_request(&user);
    assert!(matches!(req.method, HttpMethod::Get));
    assert_eq!(req.url, "https://osu.ppy.sh/home");
    assert_eq!(req.headers, vec![(String::from("cookie"), new_cookie("", ""))]);
    assert!(req.form.is_empty());

    let cookies = vec![String::from("XSRF-TOKEN=tok1;"), String::from("osu_session=sess1;")];
    flow.on_home_response(&mut user, 200, &cookies);
    assert!(flow.is_awaiting_login());
    assert_eq!(user.token_str(), "tok1");
    assert_eq!(user.session_str(), "sess1");

    let req = flow.login_request(&user);
    assert!(matches!(req.method, HttpMethod::Post));
    assert_eq!(req.url, "https://osu.ppy.sh/session");
    assert_eq!(
        req.headers,
        vec![
            (String::from("referer"), String::from("https://osu.ppy.sh/home")),
            (
                String::from("content-type"),
                String::from("application/x-www-form-urlencoded"),
            ),
            (String::from("cookie"), new_cookie("tok1", "sess1")),
        ]
    );
    assert_eq!(
        req.form,
        vec![
            (String::from("_token"), String::from("tok1")),
            (String::from("username"), String::from("player")),
            (String::from("password"), String::from("secret")),
        ]
    );

    let cookies = vec![String::from("osu_session=sess2;")];
    flow.on_login_response(&mut user, 200, &cookies);
    assert!(flow.is_succeeded());
    assert_eq!(user.token_str(), "tok1");
    assert_eq!(user.session_str(), "sess2");
}

#[test]
fn test_refresh_step1_400_short_circuits() {
    let mut user = UserSession::new("player", "secret").unwrap();
    let mut flow = RefreshFlow::new();
    let cookies: Vec<String> = Vec::new();
    flow.on_home_response(&mut user, 400, &cookies);
    // the cascade failed with IncorrectCredentials and the login step can
    // never run: the flow is not awaiting it
    assert_eq!(flow.failure(), Some(&OsuMapDownloadError::IncorrectCredentials));
    assert!(!flow.is_awaiting_login());
    assert!(!flow.is_succeeded());
    // the session is untouched
    assert_eq!(user.token_str(), "");
    assert_eq!(user.session_str(), "");
}

#[test]
fn test_refresh_step1_other_status() {
    let mut user = UserSession::new("player", "secret").unwrap();
    let mut flow = RefreshFlow::new();
    let cookies: Vec<String> = Vec::new();
    flow.on_home_response(&mut user, 503, &cookies);
    assert_eq!(flow.failure(), Some(&OsuMapDownloadError::UnknownSessionError));
}

#[test]
fn test_refresh_login_403() {
    let mut user = UserSession::new("player", "secret").unwrap();
    let mut flow = RefreshFlow::new();
    let cookies = vec![String::from("XSRF-TOKEN=tok1;")];
    flow.on_home_response(&mut user, 200, &cookies);
    assert!(flow.is_awaiting_login());
    let none: Vec<String> = Vec::new();
    flow.on_login_response(&mut user, 403, &none);
    assert_eq!(flow.failure(), Some(&OsuMapDownloadError::IncorrectCredentials));
    // the token survived from step 1; the failed step 2 changed nothing
    assert_eq!(user.token_str(), "tok1");
}

#[test]
fn test_refresh_login_other_status() {
    let mut user = UserSession::new("player", "secret").unwrap();
    let mut flow = RefreshFlow::new();
    let cookies: Vec<String> = Vec::new();
    flow.on_home_response(&mut user, 200, &cookies);
    flow.on_login_response(&mut user, 500, &cookies);
    assert_eq!(flow.failure(), Some(&OsuMapDownloadError::UnknownSessionError));
}

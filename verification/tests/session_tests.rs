use osu_map_download::session::UserSession;
use osu_map_download::session::check_username;
use osu_map_download::session::format_cookie_str;
use osu_map_download::session::new_cookie;
use osu_map_download::error::OsuMapDownloadError;

#[test]
fn test_name_regex() {
    assert_eq!(false, check_username("( name"));
    assert_eq!(true, check_username("pe_ppy[fuck]"));
    assert_eq!(true, check_username("-Spring Night-"));
}

#[test]
fn main_test_name_regex() {
    assert_eq!(false, check_username("( name"));
    assert_eq!(true, check_username("pe_ppy[fuck]"));
    assert_eq!(true, check_username("-Spring Night-"));
}

#[test]
fn test_user_from_recoverable() {
    // test valid
    let user = UserSession::from_recoverable("abc", "def,123");
    assert!(user.is_some());
    let user = user.unwrap();
    assert_eq!(user.username(), "abc");
    assert_eq!(user.token_str(), "def");
    assert_eq!(user.session_str(), "123");
    assert_eq!(user.to_recoverable(), "def,123");

    // test invalid
    let user = UserSession::from_recoverable("abc", "def");
    assert!(user.is_none());
}

#[test]
fn test_user_update_header() {
    let mut user = UserSession::from_recoverable("foo", "bar,123").unwrap();
    let headers = vec![
        String::from("XSRF-TOKEN=abcdef12345;"),
        String::from("osu_session=ghijklm78901;"),
    ];
    user.update(&headers);
    assert_eq!(user.token_str(), "abcdef12345");
    assert_eq!(user.session_str(), "ghijklm78901");
    assert_eq!(user.username(), "foo");
}

#[test]
fn test_user_new_header() {
    let user = UserSession::from_recoverable("foo", "bar,123").unwrap();
    let header = user.new_header("12345");
    let expect = vec![
        (String::from("cookie"), new_cookie("bar", "123")),
        (
            String::from("referer"),
            String::from("https://osu.ppy.sh/beatmapsets/12345"),
        ),
        (
            String::from("content-type"),
            String::from("application/x-www-form-urlencoded"),
        ),
    ];
    assert_eq!(header, expect);
}

#[test]
fn test_extractor_first_match_wins() {
    let mut user = UserSession::from_recoverable("foo", "old,old1").unwrap();
    let headers = vec![
        String::from("XSRF-TOKEN=firsttok;"),
        String::from("some other header"),
        String::from("osu_session=firstsess;"),
        String::from("XSRF-TOKEN=secondtok;"),
        String::from("osu_session=secondsess;"),
    ];
    user.update(&headers);
    assert_eq!(user.token_str(), "firsttok");
    assert_eq!(user.session_str(), "firstsess");
}

#[test]
fn test_extractor_empty_headers() {
    let mut user = UserSession::from_recoverable("foo", "keepme,keepme2").unwrap();
    let headers: Vec<String> = Vec::new();
    user.update(&headers);
    assert_eq!(user.token_str(), "keepme");
    assert_eq!(user.session_str(), "keepme2");
}

#[test]
fn test_extractor_one_kind_only() {
    let mut user = UserSession::from_recoverable("foo", "oldtok,oldsess").unwrap();
    let headers = vec![String::from("osu_session=newsess;")];
    user.update(&headers);
    assert_eq!(user.token_str(), "oldtok");
    assert_eq!(user.session_str(), "newsess");
}

#[test]
fn test_extractor_needs_terminator() {
    let mut user = UserSession::from_recoverable("foo", "oldtok,oldsess").unwrap();
    // the token run is not terminated by a semicolon, so it is no match
    let headers = vec![String::from("XSRF-TOKEN=unterminated")];
    user.update(&headers);
    assert_eq!(user.token_str(), "oldtok");
}

#[test]
fn test_new_validates_username() {
    let user = UserSession::new("good name[x]", "secret");
    assert!(user.is_ok());
    let user = user.unwrap();
    assert_eq!(user.username(), "good name[x]");
    assert_eq!(user.token_str(), "");
    assert_eq!(user.session_str(), "");
    assert!(!user.is_presumptively_authenticated());

    let bad = UserSession::new("", "secret");
    assert!(matches!(bad, Err(OsuMapDownloadError::ConstructionError)));
    let bad = UserSession::new("( name", "secret");
    assert!(matches!(bad, Err(OsuMapDownloadError::ConstructionError)));
}

#[test]
fn test_cookie_format() {
    assert_eq!(new_cookie("a1", "b2"), "XSRF-TOKEN=a1; osu_session=b2;");
    assert_eq!(format_cookie_str("a1", "b2"), "XSRF-TOKEN=a1; osu_session=b2;");
}

#[test]
fn test_save_read_session_round_trip() {
    let user = UserSession::from_recoverable("foo", "tok123,sess456").unwrap();
    let saved = user.save_session();
    assert_eq!(saved, "tok123&sess456");

    let mut other = UserSession::new("foo", "pw").unwrap();
    other.read_session(&saved);
    assert_eq!(other.token_str(), "tok123");
    assert_eq!(other.session_str(), "sess456");
}

#[test]
fn test_read_session_ignores_garbage() {
    let mut user = UserSession::from_recoverable("foo", "tok,sess").unwrap();
    user.read_session("no separator here");
    assert_eq!(user.token_str(), "tok");
    assert_eq!(user.session_str(), "sess");
}

#[test]
fn test_from_recoverable_rejects_malformed_fields() {
    // an empty first field is not a well-formed token
    assert!(UserSession::from_recoverable("foo", ",sess").is_none());
    // a space is outside the token's character class
    assert!(UserSession::from_recoverable("foo", "a b,sess").is_none());
    // percent is allowed in the session value only
    assert!(UserSession::from_recoverable("foo", "tok,se%73s").is_some());
    assert!(UserSession::from_recoverable("foo", "to%6b,sess").is_none());
}

#[test]
fn test_print_xxx() {
    let f: (Option<String>, Option<String>) = (None, None);
    if let Some(s) = &f.0 {
        println!("1:'{}'", s);
    } else {
        println!("1 is none!")
    }
    if let Some(s) = &f.1 {
        println!("2:'{}'", s);
    } else {
        println!("2 is none!")
    }
}

use osu_map_download::mode::Mode;
use osu_map_download::num::parse_u32_digits;
use osu_map_download::num::parse_u64_digits;
use osu_map_download::num::u64_to_string;
use osu_map_download::parse::beatmapset_id_from_body;
use osu_map_download::parse::checksum_from_body;
use osu_map_download::parse::sid_from_redirect_url;
use osu_map_download::parse::user_id_from_url;
use osu_map_download::error::OsuMapDownloadError;

#[test]
fn test_sid_from_redirect_url() {
    // the canonical set URL a short link redirects to
    let url = "https://osu.ppy.sh/beatmapsets/1748483#osu/3594765";
    assert_eq!(sid_from_redirect_url(url), Some(1748483));

    // no fragment, no parse
    assert_eq!(sid_from_redirect_url("https://osu.ppy.sh/beatmapsets/1748483"), None);
    // fragment before the prefix ends
    assert_eq!(sid_from_redirect_url("https://#"), None);
    // non-numeric set id
    assert_eq!(sid_from_redirect_url("https://osu.ppy.sh/beatmapsets/abc#osu"), None);
}

#[test]
fn test_user_id_from_url() {
    assert_eq!(user_id_from_url("https://osu.ppy.sh/users/17064371"), Some(17064371));
    assert_eq!(user_id_from_url("no slash at all"), None);
    assert_eq!(user_id_from_url("https://osu.ppy.sh/users/name"), None);
    assert_eq!(user_id_from_url("https://osu.ppy.sh/users/"), None);
}

#[test]
fn test_body_field_captures() {
    let body = "{\"beatmapset_id\":3720,\"checksum\":\"abc123def\",\"x\":1}";
    assert_eq!(beatmapset_id_from_body(body), Some(String::from("3720")));
    assert_eq!(checksum_from_body(body), Some(String::from("abc123def")));

    assert_eq!(beatmapset_id_from_body("{\"other\":1}"), None);
    assert_eq!(checksum_from_body("{\"checksum\":\"unterminated"), None);
}

#[test]
fn test_mode_to_str() {
    assert_eq!(Mode::Osu.to_str(), "osu");
    assert_eq!(Mode::Taiko.to_str(), "taiko");
    assert_eq!(Mode::Catch.to_str(), "fruits");
    assert_eq!(Mode::Mania.to_str(), "mania");
}

#[test]
fn test_mode_press() {
    assert_eq!(Mode::press("0"), Mode::Osu);
    assert_eq!(Mode::press("1"), Mode::Taiko);
    assert_eq!(Mode::press(" 2\n"), Mode::Catch);
    assert_eq!(Mode::press("3"), Mode::Mania);
    assert_eq!(Mode::press("nonsense"), Mode::Osu);
    assert_eq!(Mode::press(""), Mode::Osu);
}

#[test]
fn test_parse_digit_sequences() {
    let digits: Vec<char> = vec!['4', '2'];
    assert_eq!(parse_u64_digits(&digits), Some(42));
    assert_eq!(parse_u32_digits(&digits), Some(42));

    let empty: Vec<char> = Vec::new();
    assert_eq!(parse_u64_digits(&empty), None);

    let junk: Vec<char> = vec!['4', 'x'];
    assert_eq!(parse_u64_digits(&junk), None);

    // one past u32::MAX still fits a u64 but not a u32
    let big: Vec<char> = vec!['4', '2', '9', '4', '9', '6', '7', '2', '9', '6'];
    assert_eq!(parse_u64_digits(&big), Some(4294967296));
    assert_eq!(parse_u32_digits(&big), None);

    // far past u64::MAX
    let huge: Vec<char> = vec![
        '9', '9', '9', '9', '9', '9', '9', '9', '9', '9', '9', '9', '9', '9', '9', '9', '9', '9',
        '9', '9', '9',
    ];
    assert_eq!(parse_u64_digits(&huge), None);
}

#[test]
fn test_u64_to_string() {
    assert_eq!(u64_to_string(0), "0");
    assert_eq!(u64_to_string(7), "7");
    assert_eq!(u64_to_string(1748483), "1748483");
    assert_eq!(u64_to_string(u64::MAX), "18446744073709551615");
}

#[test]
fn test_error_messages() {
    assert_eq!(
        OsuMapDownloadError::IncorrectCredentials.message(),
        "credentials rejected, check the password"
    );
    assert_eq!(OsuMapDownloadError::UnknownSizeError.message(), "response size unknown");
}

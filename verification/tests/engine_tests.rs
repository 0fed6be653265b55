use osu_map_download::engine::DownloadOutcome;
use osu_map_download::engine::FetchEvent;
use osu_map_download::engine::Orchestrator;
use osu_map_download::engine::ResponseClass;
use osu_map_download::engine::classify;
use osu_map_download::engine::delivery_outcome;
use osu_map_download::engine::new_download_set_url;
use osu_map_download::engine::non_delivery_outcome;
use osu_map_download::error::OsuMapDownloadError;
use osu_map_download::request::HttpMethod;
use osu_map_download::session::UserSession;
use osu_map_download::session::new_cookie;

fn ids_of(ids: &[&str]) -> Vec<String> {
    let mut v = Vec::new();
    for id in ids {
        v.push(String::from(*id));
    }
    v
}

#[test]
fn test_classify() {
    assert_eq!(classify(&FetchEvent::Status { status: 200 }), ResponseClass::Deliver);
    assert_eq!(classify(&FetchEvent::Status { status: 404 }), ResponseClass::NotFound);
    assert_eq!(classify(&FetchEvent::Status { status: 403 }), ResponseClass::Auth);
    assert_eq!(classify(&FetchEvent::Status { status: 500 }), ResponseClass::Auth);
    assert_eq!(classify(&FetchEvent::TransportError), ResponseClass::Transient);

    assert_eq!(non_delivery_outcome(ResponseClass::Deliver), None);
    assert_eq!(non_delivery_outcome(ResponseClass::NotFound), Some(DownloadOutcome::NotFound));
    assert_eq!(
        non_delivery_outcome(ResponseClass::Transient),
        Some(DownloadOutcome::TransientFailure)
    );
    assert_eq!(non_delivery_outcome(ResponseClass::Auth), Some(DownloadOutcome::AuthFailure));
}

#[test]
fn test_invalid_destination() {
    let r = Orchestrator::new(ids_of(&["111"]), false, true);
    assert!(matches!(r, Err(OsuMapDownloadError::InvalidDestinationError)));
}

#[test]
fn test_request_for_builds_url_and_headers() {
    let mut user = UserSession::new("player", "secret").unwrap();
    let cookies = vec![String::from("XSRF-TOKEN=tok;"), String::from("osu_session=sess;")];
    user.update(&cookies);
    let orch = Orchestrator::new(ids_of(&["12345"]), true, true).unwrap();
    let req = orch.request_for(0, &user);
    assert!(matches!(req.method, HttpMethod::Get));
    assert_eq!(req.url, "https://osu.ppy.sh/beatmapsets/12345/download?noVideo=1");
    assert_eq!(
        req.headers,
        vec![
            (String::from("cookie"), new_cookie("tok", "sess")),
            (
                String::from("referer"),
                String::from("https://osu.ppy.sh/beatmapsets/12345"),
            ),
            (
                String::from("content-type"),
                String::from("application/x-www-form-urlencoded"),
            ),
        ]
    );

    let orch = Orchestrator::new(ids_of(&["12345"]), true, false).unwrap();
    let req = orch.request_for(0, &user);
    assert_eq!(req.url, "https://osu.ppy.sh/beatmapsets/12345/download?noVideo=0");

    let d = orch.describe(0);
    assert_eq!(d.item_id, "12345");
    assert_eq!(d.no_video, false);
}

#[test]
fn test_new_download_set_url() {
    assert_eq!(
        new_download_set_url(12345, false),
        "https://osu.ppy.sh/beatmapsets/12345/download?noVideo=1"
    );
    assert_eq!(new_download_set_url(12345, true), "https://osu.ppy.sh/beatmapsets/12345/download");
    assert_eq!(new_download_set_url(0, true), "https://osu.ppy.sh/beatmapsets/0/download");
}

#[test]
fn test_batch_mixed_success_notfound() {
    // first pass: 200 for "111", 404 for "222"; no refresh at all
    let mut orch = Orchestrator::new(ids_of(&["111", "222"]), true, true).unwrap();
    assert_eq!(orch.len(), 2);
    assert!(orch.is_pending(0) && orch.is_pending(1));

    let write_result: Result<u64, OsuMapDownloadError> = Ok(2048);
    orch.record(0, delivery_outcome(write_result, String::from("/maps/111.osz")));
    orch.record(1, DownloadOutcome::NotFound);
    assert!(orch.pass_complete());
    let needs_refresh = orch.advance();
    assert!(!needs_refresh);
    assert!(orch.is_done());
    assert_eq!(orch.current_pass(), 1);

    let (result, batch_error) = orch.into_result();
    assert_eq!(result.succeeded, vec![String::from("111")]);
    assert_eq!(result.failed, vec![(String::from("222"), DownloadOutcome::NotFound)]);
    assert!(batch_error.is_none());
}

#[test]
fn test_batch_refresh_then_success() {
    // first pass fails with an auth-class status, the one refresh succeeds,
    // and the second pass delivers
    let mut orch = Orchestrator::new(ids_of(&["333"]), true, true).unwrap();
    orch.record(0, DownloadOutcome::AuthFailure);
    let needs_refresh = orch.advance();
    assert!(needs_refresh);
    assert!(orch.is_refreshing());

    orch.on_refresh_result(Ok(()));
    assert_eq!(orch.current_pass(), 2);
    assert!(orch.is_pending(0));

    orch.record(0, DownloadOutcome::Success { bytes_written: 77, path: String::from("333.osz") });
    let needs_refresh = orch.advance();
    assert!(!needs_refresh);
    assert!(orch.is_done());

    let (result, batch_error) = orch.into_result();
    assert_eq!(result.succeeded, vec![String::from("333")]);
    assert!(result.failed.is_empty());
    assert!(batch_error.is_none());
}

#[test]
fn test_batch_refresh_fails() {
    // first pass fails, the refresh is rejected: the batch surfaces the
    // refresh error and the id keeps its first-pass failure
    let mut orch = Orchestrator::new(ids_of(&["444"]), true, true).unwrap();
    orch.record(0, DownloadOutcome::AuthFailure);
    assert!(orch.advance());
    orch.on_refresh_result(Err(OsuMapDownloadError::IncorrectCredentials));
    assert!(orch.is_done());

    let (result, batch_error) = orch.into_result();
    assert!(result.succeeded.is_empty());
    assert_eq!(result.failed, vec![(String::from("444"), DownloadOutcome::AuthFailure)]);
    assert_eq!(batch_error, Some(OsuMapDownloadError::IncorrectCredentials));
}

#[test]
fn test_retry_bound_single_refresh_two_passes() {
    // every id fails with an auth-class failure in both passes: exactly one
    // refresh happens, and after the second pass the batch can only finish
    let mut orch = Orchestrator::new(ids_of(&["1", "2"]), true, true).unwrap();
    orch.record(0, DownloadOutcome::AuthFailure);
    orch.record(1, DownloadOutcome::TransientFailure);
    let first_decision = orch.advance();
    assert!(first_decision);
    orch.on_refresh_result(Ok(()));
    assert_eq!(orch.current_pass(), 2);

    orch.record(0, DownloadOutcome::AuthFailure);
    orch.record(1, DownloadOutcome::TransientFailure);
    let second_decision = orch.advance();
    // no second refresh, no third pass: the batch is finished
    assert!(!second_decision);
    assert!(orch.is_done());
    let (result, batch_error) = orch.into_result();
    assert_eq!(
        result.failed,
        vec![
            (String::from("1"), DownloadOutcome::AuthFailure),
            (String::from("2"), DownloadOutcome::TransientFailure),
        ]
    );
    assert!(batch_error.is_none());
}

#[test]
fn test_notfound_classification_is_stable() {
    // a batch whose every id resolved NotFound finishes without refresh;
    // rerunning it against the same responses reproduces the same report
    let run = || {
        let mut orch = Orchestrator::new(ids_of(&["7", "8"]), true, false).unwrap();
        orch.record(0, DownloadOutcome::NotFound);
        orch.record(1, DownloadOutcome::NotFound);
        assert!(!orch.advance());
        orch.into_result()
    };
    let (first, first_err) = run();
    let (second, second_err) = run();
    assert_eq!(first, second);
    assert_eq!(first_err, second_err);
    assert!(first.succeeded.is_empty());
    assert_eq!(
        first.failed,
        vec![
            (String::from("7"), DownloadOutcome::NotFound),
            (String::from("8"), DownloadOutcome::NotFound),
        ]
    );
}

#[test]
fn test_delivery_outcome_maps_write_errors() {
    let r: Result<u64, OsuMapDownloadError> = Err(OsuMapDownloadError::DownloadPartError);
    let o = delivery_outcome(r, String::from("p.osz"));
    match o {
        DownloadOutcome::IOFailure { reason } => {
            assert_eq!(reason, "connection broke while downloading");
        },
        other => panic!("expected an IOFailure, got {:?}", other),
    }
}

use ai_deno::download::{
    replay, Body, Download, DownloadError, Next, Reply, BACKOFF_MILLIS, MAX_ATTEMPTS,
    MAX_REDIRECTS,
};

fn status(code: u16) -> Reply {
    Reply::Response { status: code, location: None, body: Body::Bytes(vec![]) }
}

fn redirect(code: u16, to: &str) -> Reply {
    Reply::Response { status: code, location: Some(to.to_string()), body: Body::Bytes(vec![]) }
}

fn success(bytes: &[u8]) -> Reply {
    Reply::Response { status: 200, location: None, body: Body::Bytes(bytes.to_vec()) }
}

fn state(url: &str, current: &str, attempt: u8, redirects: u8) -> Download {
    Download { url: url.to_string(), current: current.to_string(), attempt, redirects }
}

#[test]
fn policy_constants() {
    assert_eq!(MAX_ATTEMPTS, 5);
    assert_eq!(MAX_REDIRECTS, 5);
    assert_eq!(BACKOFF_MILLIS, 200);
}

#[test]
fn download_starts_at_the_url() {
    assert_eq!(
        Download::start("https://example.com/a"),
        state("https://example.com/a", "https://example.com/a", 1, 0)
    );
}

#[test]
fn success_at_once() {
    assert_eq!(
        replay("https://example.com/a", vec![success(b"hello")]),
        Next::Done(b"hello".to_vec())
    );
}

#[test]
fn one_redirect_then_success() {
    let replies = vec![redirect(302, "/b"), success(b"body")];
    assert_eq!(replay("https://example.com/a", replies), Next::Done(b"body".to_vec()));
}

#[test]
fn redirect_is_read_against_the_url_that_answered() {
    let first = Download::start("https://example.com/x/a").on_reply(redirect(301, "https://other.example/y/b"));
    assert_eq!(
        first,
        Next::Get(state("https://example.com/x/a", "https://other.example/y/b", 1, 1))
    );
    let second = match first {
        Next::Get(d) => d.on_reply(redirect(307, "c")),
        other => panic!("unexpected {:?}", other),
    };
    assert_eq!(
        second,
        Next::Get(state("https://example.com/x/a", "https://other.example/y/c", 1, 2))
    );
}

#[test]
fn always_500_fails_after_five_attempts() {
    let url = "https://example.com/a";
    for count in 1..5usize {
        let replies: Vec<Reply> = (0..count).map(|_| status(500)).collect();
        assert_eq!(replay(url, replies), Next::Backoff(state(url, url, count as u8 + 1, 0)));
    }
    let replies: Vec<Reply> = (0..5).map(|_| status(500)).collect();
    assert_eq!(
        replay(url, replies),
        Next::Failed(DownloadError {
            status_code: Some(500),
            message: "Failed to load url: https://example.com/a".to_string(),
        })
    );
}

#[test]
fn replies_behind_the_end_are_not_looked_at() {
    let url = "https://example.com/a";
    let mut replies: Vec<Reply> = (0..5).map(|_| status(500)).collect();
    replies.push(success(b"late"));
    assert_eq!(
        replay(url, replies),
        Next::Failed(DownloadError {
            status_code: Some(500),
            message: "Failed to load url: https://example.com/a".to_string(),
        })
    );
}

#[test]
fn last_error_is_the_result() {
    let url = "https://example.com/a";
    let replies = vec![status(500), status(502), status(503), status(404), status(418)];
    assert_eq!(
        replay(url, replies),
        Next::Failed(DownloadError {
            status_code: Some(418),
            message: "Failed to load url: https://example.com/a".to_string(),
        })
    );
}

#[test]
fn failure_then_success() {
    let url = "https://example.com/a";
    let replies = vec![status(503), Reply::SendFailed("reset".to_string()), success(b"ok")];
    assert_eq!(replay(url, replies), Next::Done(b"ok".to_vec()));
}

#[test]
fn send_failure_fails_the_attempt() {
    let url = "https://example.com/a";
    assert_eq!(
        Download::start(url).on_reply(Reply::SendFailed("timed out".to_string())),
        Next::Backoff(state(url, url, 2, 0))
    );
    assert_eq!(
        state(url, url, 5, 0).on_reply(Reply::SendFailed("timed out".to_string())),
        Next::Failed(DownloadError {
            status_code: None,
            message: "Failed to send request: timed out".to_string(),
        })
    );
}

#[test]
fn unreadable_body_fails_the_attempt() {
    let url = "https://example.com/a";
    let reply = Reply::Response {
        status: 200,
        location: None,
        body: Body::Unreadable("eof".to_string()),
    };
    assert_eq!(
        state(url, url, 5, 0).on_reply(reply),
        Next::Failed(DownloadError {
            status_code: Some(200),
            message: "Failed to receive bytes: https://example.com/a; eof".to_string(),
        })
    );
}

#[test]
fn redirect_without_location_fails_the_attempt() {
    let url = "https://example.com/a";
    assert_eq!(
        state(url, url, 5, 0).on_reply(status(302)),
        Next::Failed(DownloadError {
            status_code: Some(302),
            message: "Redirect without location: https://example.com/a".to_string(),
        })
    );
}

#[test]
fn redirect_that_cannot_be_joined_fails_the_attempt() {
    let url = "https://example.com/a";
    assert_eq!(
        state(url, url, 5, 0).on_reply(redirect(302, "http://[::1")),
        Next::Failed(DownloadError {
            status_code: Some(302),
            message: "Invalid redirect location: http://[::1".to_string(),
        })
    );
}

#[test]
fn five_redirects_are_followed_and_a_sixth_is_not() {
    let url = "https://example.com/0";
    let mut replies: Vec<Reply> = (1..=5).map(|i| redirect(302, &format!("/{}", i))).collect();
    assert_eq!(
        replay(url, replies.clone()),
        Next::Get(state(url, "https://example.com/5", 1, 5))
    );
    replies.push(success(b"end"));
    assert_eq!(replay(url, replies.clone()), Next::Done(b"end".to_vec()));
    replies.pop();
    replies.push(redirect(302, "/6"));
    assert_eq!(replay(url, replies), Next::Backoff(state(url, url, 2, 0)));
}

#[test]
fn a_new_attempt_starts_at_the_requested_url() {
    let url = "https://example.com/a";
    let replies = vec![redirect(302, "/b"), status(500)];
    assert_eq!(replay(url, replies), Next::Backoff(state(url, url, 2, 0)));
}

#[test]
fn statuses_at_the_edges() {
    let url = "https://example.com/a";
    assert_eq!(Download::start(url).on_reply(status(199)), Next::Backoff(state(url, url, 2, 0)));
    assert_eq!(Download::start(url).on_reply(status(400)), Next::Backoff(state(url, url, 2, 0)));
    assert_eq!(
        Download::start(url).on_reply(Reply::Response {
            status: 299,
            location: None,
            body: Body::Bytes(vec![1]),
        }),
        Next::Done(vec![1])
    );
    assert_eq!(
        Download::start(url).on_reply(redirect(399, "/b")),
        Next::Get(state(url, "https://example.com/b", 1, 1))
    );
}

#[test]
fn pause_before_a_new_attempt() {
    let url = "https://example.com/a";
    assert_eq!(Next::Get(Download::start(url)).pause_millis(), None);
    assert_eq!(Download::start(url).on_reply(status(500)).pause_millis(), Some(200));
    assert_eq!(Next::Done(vec![]).pause_millis(), None);
    assert_eq!(state(url, url, 5, 0).on_reply(status(500)).pause_millis(), None);
}

#[test]
fn download_ends_within_thirty_requests() {
    let url = "https://example.com/0";
    let replies: Vec<Reply> = (0..29).map(|_| redirect(302, "/next")).collect();
    assert_eq!(
        replay(url, replies),
        Next::Get(state(url, "https://example.com/next", 5, 5))
    );
    let replies: Vec<Reply> = (0..30).map(|_| redirect(302, "/next")).collect();
    assert_eq!(
        replay(url, replies),
        Next::Failed(DownloadError {
            status_code: None,
            message: "Failed to download tarball".to_string(),
        })
    );
}

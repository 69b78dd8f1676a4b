//! The download client's retry and redirect policy.
//!
//! A download is a value that is told what came back from each GET and
//! answers with what to do next. A caller sends the requests and sleeps; the
//! policy itself performs no I/O.
//!
//! One attempt starts at the requested URL and follows at most
//! `MAX_REDIRECTS` redirects, each read against the URL that answered. A
//! network error, a status outside 2xx and 3xx, a body that cannot be read,
//! a redirect that cannot be followed and one redirect too many each fail
//! the attempt. A failed attempt is followed by a pause and a new attempt,
//! until `MAX_ATTEMPTS` attempts have failed; the last error is then the
//! result.

use vstd::prelude::*;
use vstd::string::*;

use crate::text::{join2, opt_view};
use crate::urls::{join_url, joined_url};

verus! {

/// Attempts made for one download before it fails.
pub const MAX_ATTEMPTS: u8 = 5;

/// Redirects followed within one attempt.
pub const MAX_REDIRECTS: u8 = 5;

/// Pause between two attempts, in milliseconds.
pub const BACKOFF_MILLIS: u64 = 200;

/// Why an attempt failed: the status of the response, where one arrived, and
/// a message.
#[derive(Debug, Clone, PartialEq, Eq)]
pub struct DownloadError {
    pub status_code: Option<u16>,
    pub message: String,
}

pub struct DownloadErrorView {
    pub status_code: Option<u16>,
    pub message: Seq<char>,
}

impl View for DownloadError {
    type V = DownloadErrorView;

    open spec fn view(&self) -> DownloadErrorView {
        DownloadErrorView { status_code: self.status_code, message: self.message@ }
    }
}

/// The body of a response.
#[derive(Debug, Clone, PartialEq, Eq)]
pub enum Body {
    /// The bytes of the body.
    Bytes(Vec<u8>),
    /// Reading the body failed; the transport's message.
    Unreadable(String),
}

pub enum BodyView {
    Bytes(Seq<u8>),
    Unreadable(Seq<char>),
}

impl View for Body {
    type V = BodyView;

    open spec fn view(&self) -> BodyView {
        match *self {
            Body::Bytes(b) => BodyView::Bytes(b@),
            Body::Unreadable(m) => BodyView::Unreadable(m@),
        }
    }
}

/// What came back from one GET.
#[derive(Debug, Clone, PartialEq, Eq)]
pub enum Reply {
    /// No response arrived; the transport's message.
    SendFailed(String),
    /// A response arrived, with its status, its `Location` header and its
    /// body.
    Response { status: u16, location: Option<String>, body: Body },
}

pub enum ReplyView {
    SendFailed(Seq<char>),
    Response { status: u16, location: Option<Seq<char>>, body: BodyView },
}

impl View for Reply {
    type V = ReplyView;

    open spec fn view(&self) -> ReplyView {
        match *self {
            Reply::SendFailed(m) => ReplyView::SendFailed(m@),
            Reply::Response { status, location, body } => ReplyView::Response {
                status,
                location: opt_view(location),
                body: body@,
            },
        }
    }
}

/// A download under way: the URL asked for, the URL that the next GET goes
/// to, the number of the running attempt (from 1) and the redirects followed
/// within it.
#[derive(Debug, Clone, PartialEq, Eq)]
pub struct Download {
    pub url: String,
    pub current: String,
    pub attempt: u8,
    pub redirects: u8,
}

pub struct DownloadView {
    pub url: Seq<char>,
    pub current: Seq<char>,
    pub attempt: u8,
    pub redirects: u8,
}

impl View for Download {
    type V = DownloadView;

    open spec fn view(&self) -> DownloadView {
        DownloadView {
            url: self.url@,
            current: self.current@,
            attempt: self.attempt,
            redirects: self.redirects,
        }
    }
}

/// What the caller does next.
#[derive(Debug, Clone, PartialEq, Eq)]
pub enum Next {
    /// Send a GET to `current` now.
    Get(Download),
    /// Sleep for `BACKOFF_MILLIS`, then send a GET to `current`.
    Backoff(Download),
    /// The download succeeded with this body.
    Done(Vec<u8>),
    /// Every attempt failed; the error of the last one.
    Failed(DownloadError),
}

pub enum NextView {
    Get(DownloadView),
    Backoff(DownloadView),
    Done(Seq<u8>),
    Failed(DownloadErrorView),
}

impl View for Next {
    type V = NextView;

    open spec fn view(&self) -> NextView {
        match *self {
            Next::Get(d) => NextView::Get(d@),
            Next::Backoff(d) => NextView::Backoff(d@),
            Next::Done(b) => NextView::Done(b@),
            Next::Failed(e) => NextView::Failed(e@),
        }
    }
}

impl Next {
    /// The pause before the next GET, in milliseconds: `BACKOFF_MILLIS`
    /// before a new attempt, none before anything else.
    pub fn pause_millis(&self) -> (r: Option<u64>)
        ensures
            r == (if self@ is Backoff {
                Some(BACKOFF_MILLIS)
            } else {
                None
            }),
            BACKOFF_MILLIS == 200,
    {
        match self {
            Next::Backoff(_) => Some(BACKOFF_MILLIS),
            _ => None,
        }
    }
}

/// A status in 200..=299.
pub open spec fn is_success(status: u16) -> bool {
    200 <= status < 300
}

/// A status in 300..=399.
pub open spec fn is_redirection(status: u16) -> bool {
    300 <= status < 400
}

/// The state in which the first GET for `url` is sent.
pub open spec fn start_view(url: Seq<char>) -> DownloadView {
    DownloadView { url, current: url, attempt: 1, redirects: 0 }
}

/// What follows a failed attempt: a pause and a new attempt from the
/// requested URL, or the end with `error` after the last attempt.
pub open spec fn after_failure(d: DownloadView, error: DownloadErrorView) -> NextView {
    if d.attempt < MAX_ATTEMPTS {
        NextView::Backoff(
            DownloadView {
                url: d.url,
                current: d.url,
                attempt: (d.attempt + 1) as u8,
                redirects: 0,
            },
        )
    } else {
        NextView::Failed(error)
    }
}

/// An error with its status and message.
pub open spec fn failure(status_code: Option<u16>, message: Seq<char>) -> DownloadErrorView {
    DownloadErrorView { status_code, message }
}

/// What follows `reply` in state `d`. A redirect is followed where fewer
/// than `MAX_REDIRECTS` were followed in this attempt and its location can
/// be read against the URL that answered. A success status with a body
/// ends the download. Anything else fails the attempt.
pub open spec fn next(d: DownloadView, reply: ReplyView) -> NextView {
    match reply {
        ReplyView::SendFailed(m) => after_failure(
            d,
            failure(None, "Failed to send request: "@ + m),
        ),
        ReplyView::Response { status, location, body } => {
            if is_redirection(status) {
                if d.redirects >= MAX_REDIRECTS {
                    after_failure(d, failure(None, "Failed to download tarball"@))
                } else {
                    match location {
                        None => after_failure(
                            d,
                            failure(Some(status), "Redirect without location: "@ + d.current),
                        ),
                        Some(l) => match joined_url(d.current, l) {
                            None => after_failure(
                                d,
                                failure(Some(status), "Invalid redirect location: "@ + l),
                            ),
                            Some(target) => NextView::Get(
                                DownloadView {
                                    url: d.url,
                                    current: target,
                                    attempt: d.attempt,
                                    redirects: (d.redirects + 1) as u8,
                                },
                            ),
                        },
                    }
                }
            } else if !is_success(status) {
                after_failure(d, failure(Some(status), "Failed to load url: "@ + d.current))
            } else {
                match body {
                    BodyView::Bytes(bytes) => NextView::Done(bytes),
                    BodyView::Unreadable(m) => after_failure(
                        d,
                        failure(
                            Some(status),
                            "Failed to receive bytes: "@ + d.current + "; "@ + m,
                        ),
                    ),
                }
            }
        },
    }
}

/// What a download has come to after `replies`, one for each GET it asked
/// for. Replies behind the end of the download are not looked at.
pub open spec fn feed(n: NextView, replies: Seq<ReplyView>) -> NextView
    decreases replies.len(),
{
    if replies.len() == 0 {
        n
    } else {
        match n {
            NextView::Get(d) => feed(next(d, replies[0]), replies.drop_first()),
            NextView::Backoff(d) => feed(next(d, replies[0]), replies.drop_first()),
            _ => n,
        }
    }
}

/// The views of a list of replies.
pub open spec fn replies_view(replies: Seq<Reply>) -> Seq<ReplyView> {
    replies.map_values(|r: Reply| r@)
}

impl Download {
    /// Begins a download: the first GET goes to `url`.
    pub fn start(url: &str) -> (r: Download)
        ensures
            r@ == start_view(url@),
    {
        Download { url: url.to_owned(), current: url.to_owned(), attempt: 1, redirects: 0 }
    }

    /// Ends the running attempt with `error`.
    fn fail_attempt(self, error: DownloadError) -> (r: Next)
        ensures
            r@ == after_failure(self@, error@),
    {
        if self.attempt < MAX_ATTEMPTS {
            let again: String = self.url.clone();
            Next::Backoff(
                Download {
                    url: self.url,
                    current: again,
                    attempt: self.attempt + 1,
                    redirects: 0,
                },
            )
        } else {
            Next::Failed(error)
        }
    }

    /// Takes what came back from the GET that was asked for and says what to
    /// do next.
    pub fn on_reply(self, reply: Reply) -> (r: Next)
        ensures
            r@ == next(self@, reply@),
    {
        match reply {
            Reply::SendFailed(m) => {
                let error = DownloadError {
                    status_code: None,
                    message: join2("Failed to send request: ", m.as_str()),
                };
                self.fail_attempt(error)
            },
            Reply::Response { status, location, body } => {
                if 300 <= status && status < 400 {
                    if self.redirects >= MAX_REDIRECTS {
                        let error = DownloadError {
                            status_code: None,
                            message: "Failed to download tarball".to_owned(),
                        };
                        return self.fail_attempt(error);
                    }
                    match location {
                        None => {
                            let error = DownloadError {
                                status_code: Some(status),
                                message: join2(
                                    "Redirect without location: ",
                                    self.current.as_str(),
                                ),
                            };
                            self.fail_attempt(error)
                        },
                        Some(l) => match join_url(self.current.as_str(), l.as_str()) {
                            None => {
                                let error = DownloadError {
                                    status_code: Some(status),
                                    message: join2("Invalid redirect location: ", l.as_str()),
                                };
                                self.fail_attempt(error)
                            },
                            Some(target) => Next::Get(
                                Download {
                                    url: self.url,
                                    current: target,
                                    attempt: self.attempt,
                                    redirects: self.redirects + 1,
                                },
                            ),
                        },
                    }
                } else if !(200 <= status && status < 300) {
                    let error = DownloadError {
                        status_code: Some(status),
                        message: join2("Failed to load url: ", self.current.as_str()),
                    };
                    self.fail_attempt(error)
                } else {
                    match body {
                        Body::Bytes(bytes) => Next::Done(bytes),
                        Body::Unreadable(m) => {
                            let head: String = join2(
                                "Failed to receive bytes: ",
                                self.current.as_str(),
                            );
                            let mid: String = join2(head.as_str(), "; ");
                            let error = DownloadError {
                                status_code: Some(status),
                                message: join2(mid.as_str(), m.as_str()),
                            };
                            self.fail_attempt(error)
                        },
                    }
                }
            },
        }
    }
}

/// Runs a download of `url` against recorded replies, the first for the
/// first GET. The result is where the download stands when the replies run
/// out or the download ends, whichever comes first.
pub fn replay(url: &str, replies: Vec<Reply>) -> (r: Next)
    ensures
        r@ == feed(NextView::Get(start_view(url@)), replies_view(replies@)),
{
    let mut rest: Vec<Reply> = replies;
    let mut state: Next = Next::Get(Download::start(url));
    while rest.len() > 0
        invariant
            feed(state@, replies_view(rest@)) == feed(
                NextView::Get(start_view(url@)),
                replies_view(replies@),
            ),
        decreases rest.len(),
    {
        let ghost before = rest@;
        let reply: Reply = rest.remove(0);
        proof {
            assert(replies_view(before)[0] == reply@);
            assert(replies_view(before).drop_first() =~= replies_view(rest@));
        }
        state =
        match state {
            Next::Get(d) => d.on_reply(reply),
            Next::Backoff(d) => d.on_reply(reply),
            Next::Done(b) => {
                proof {
                    lemma_feed_ended(NextView::Done(b@), replies_view(rest@));
                }
                Next::Done(b)
            },
            Next::Failed(e) => {
                proof {
                    lemma_feed_ended(NextView::Failed(e@), replies_view(rest@));
                }
                Next::Failed(e)
            },
        };
    }
    state
}

/// A download that has ended stays as it is.
pub proof fn lemma_feed_ended(n: NextView, replies: Seq<ReplyView>)
    requires
        n is Done || n is Failed,
    ensures
        feed(n, replies) == n,
{
}

/// A reply that is a response with a status outside 2xx and 3xx.
pub open spec fn is_error_status(reply: ReplyView) -> bool {
    reply matches ReplyView::Response { status, .. } && !is_success(status) && !is_redirection(
        status,
    )
}

/// Against a server that answers every GET with an error status, a download
/// that is in its attempt `d.attempt` goes on to a pause and a new attempt
/// for each reply but the one to attempt `MAX_ATTEMPTS`, where it fails with
/// the status of that reply.
pub proof fn lemma_error_statuses(d: DownloadView, replies: Seq<ReplyView>)
    requires
        1 <= d.attempt <= MAX_ATTEMPTS,
        d.current == d.url,
        d.redirects == 0,
        replies.len() <= MAX_ATTEMPTS - d.attempt + 1,
        forall|i: int| 0 <= i < replies.len() ==> is_error_status(#[trigger] replies[i]),
    ensures
        replies.len() > 0 && replies.len() < MAX_ATTEMPTS - d.attempt + 1 ==> feed(
            NextView::Get(d),
            replies,
        ) == NextView::Backoff(
            DownloadView {
                url: d.url,
                current: d.url,
                attempt: (d.attempt + replies.len()) as u8,
                redirects: 0,
            },
        ),
        replies.len() == MAX_ATTEMPTS - d.attempt + 1 ==> feed(NextView::Get(d), replies)
            == NextView::Failed(
            DownloadErrorView {
                status_code: Some(replies.last()->status),
                message: "Failed to load url: "@ + d.url,
            },
        ),
        replies.len() > 0 ==> feed(NextView::Backoff(d), replies) == feed(
            NextView::Get(d),
            replies,
        ),
    decreases replies.len(),
{
    if replies.len() > 0 {
        let rest = replies.drop_first();
        let after = next(d, replies[0]);
        assert(is_error_status(replies[0]));
        assert(feed(NextView::Get(d), replies) == feed(after, rest));
        assert(feed(NextView::Backoff(d), replies) == feed(after, rest));
        assert forall|i: int| 0 <= i < rest.len() implies is_error_status(#[trigger] rest[i]) by {
            assert(rest[i] == replies[i + 1]);
        }
        if d.attempt < MAX_ATTEMPTS {
            let e = DownloadView {
                url: d.url,
                current: d.url,
                attempt: (d.attempt + 1) as u8,
                redirects: 0,
            };
            assert(after == NextView::Backoff(e));
            lemma_error_statuses(e, rest);
            if rest.len() > 0 {
                assert(rest.last() == replies.last());
            } else {
                assert(feed(after, rest) == after);
            }
        } else {
            assert(rest.len() == 0);
            assert(replies.last() == replies[0]);
            assert(feed(after, rest) == after);
        }
    }
}

/// A server that answers every GET with an error status makes the download
/// fail at the reply to GET number `MAX_ATTEMPTS`, with the status of that
/// reply, and not before: after fewer replies the download waits to try
/// again.
pub proof fn lemma_fails_after_max_attempts(url: Seq<char>, replies: Seq<ReplyView>)
    requires
        0 < replies.len() <= MAX_ATTEMPTS,
        forall|i: int| 0 <= i < replies.len() ==> is_error_status(#[trigger] replies[i]),
    ensures
        replies.len() < MAX_ATTEMPTS ==> feed(NextView::Get(start_view(url)), replies)
            is Backoff,
        replies.len() == MAX_ATTEMPTS ==> feed(NextView::Get(start_view(url)), replies)
            == NextView::Failed(
            DownloadErrorView {
                status_code: Some(replies.last()->status),
                message: "Failed to load url: "@ + url,
            },
        ),
{
    lemma_error_statuses(start_view(url), replies);
}

/// One redirect whose location can be joined to the URL, then a success
/// status with a body: the download ends with that body after two GETs.
pub proof fn lemma_redirect_then_success(
    url: Seq<char>,
    redirect: ReplyView,
    success: ReplyView,
)
    requires
        redirect matches ReplyView::Response { status, location: Some(l), .. } && is_redirection(
            status,
        ) && joined_url(url, l) is Some,
        success matches ReplyView::Response { status, body: BodyView::Bytes(_), .. } && is_success(
            status,
        ),
    ensures
        feed(NextView::Get(start_view(url)), seq![redirect]) == NextView::Get(
            DownloadView {
                url,
                current: joined_url(url, redirect->location->0)->0,
                attempt: 1,
                redirects: 1,
            },
        ),
        feed(NextView::Get(start_view(url)), seq![redirect, success]) == NextView::Done(
            success->body->Bytes_0,
        ),
{
    let d = start_view(url);
    let one = seq![redirect];
    let two = seq![redirect, success];
    assert(one.drop_first() =~= Seq::<ReplyView>::empty());
    assert(two.drop_first() =~= seq![success]);
    assert(seq![success].drop_first() =~= Seq::<ReplyView>::empty());
    let mid = next(d, redirect);
    let end = next(mid->Get_0, success);
    assert(feed(mid, Seq::empty()) == mid);
    assert(feed(end, Seq::empty()) == end);
    assert(feed(NextView::Get(d), one) == feed(mid, one.drop_first()));
    assert(feed(NextView::Get(d), two) == feed(mid, two.drop_first()));
    assert(feed(mid, seq![success]) == feed(end, seq![success].drop_first()));
}

/// The attempt and the redirects of a download are within their limits.
pub open spec fn within_limits(d: DownloadView) -> bool {
    1 <= d.attempt <= MAX_ATTEMPTS && d.redirects <= MAX_REDIRECTS
}

/// The number of GETs that a download may still ask for: one and
/// `MAX_REDIRECTS` redirects in each attempt to come, and what is left of
/// the running attempt.
pub open spec fn gets_left(d: DownloadView) -> int {
    (MAX_ATTEMPTS - d.attempt) * (MAX_REDIRECTS + 1) + (MAX_REDIRECTS - d.redirects) + 1
}

/// Every reply ends the download or leaves it with fewer GETs to ask for.
pub proof fn lemma_reply_spends_a_get(d: DownloadView, reply: ReplyView)
    requires
        within_limits(d),
    ensures
        match next(d, reply) {
            NextView::Get(e) => within_limits(e) && 0 < gets_left(e) < gets_left(d),
            NextView::Backoff(e) => within_limits(e) && 0 < gets_left(e) < gets_left(d),
            _ => true,
        },
{
}

/// A download never asks for more GETs than it has left: once it has been
/// told the replies to that many, it has ended.
pub proof fn lemma_download_ends(d: DownloadView, replies: Seq<ReplyView>)
    requires
        within_limits(d),
        replies.len() >= gets_left(d),
    ensures
        feed(NextView::Get(d), replies) is Done || feed(NextView::Get(d), replies) is Failed,
        feed(NextView::Backoff(d), replies) == feed(NextView::Get(d), replies),
    decreases replies.len(),
{
    let after = next(d, replies[0]);
    let rest = replies.drop_first();
    lemma_reply_spends_a_get(d, replies[0]);
    assert(feed(NextView::Get(d), replies) == feed(after, rest));
    assert(feed(NextView::Backoff(d), replies) == feed(after, rest));
    match after {
        NextView::Get(e) => {
            lemma_download_ends(e, rest);
        },
        NextView::Backoff(e) => {
            lemma_download_ends(e, rest);
        },
        _ => {
            lemma_feed_ended(after, rest);
        },
    }
}

/// A download from its start ends within `MAX_ATTEMPTS` attempts of one
/// GET and `MAX_REDIRECTS` redirects each, whatever comes back.
pub proof fn lemma_download_is_bounded(url: Seq<char>, replies: Seq<ReplyView>)
    requires
        replies.len() >= MAX_ATTEMPTS * (MAX_REDIRECTS + 1),
    ensures
        feed(NextView::Get(start_view(url)), replies) is Done || feed(
            NextView::Get(start_view(url)),
            replies,
        ) is Failed,
{
    lemma_download_ends(start_view(url), replies);
}

} // verus!

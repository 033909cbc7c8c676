//! One HTTP proxy session: what a request head asks for, and what the proxy
//! sends and does next.
//!
//! The session does no I/O. Its caller reads the head, dials, fetches and
//! relays, and tells the session what came of it.

use vstd::prelude::*;
use vstd::string::StringSliceAdditionalSpecFns;

use crate::auth::{authorization_header, credentials_view, presentable, Credentials, CredentialsView};
use crate::text::{append, contains, has_prefix, occurs_in, starts_with, text_bytes};
use crate::tokens::{rows, split_whitespace, tokens};

verus! {

/// The size of the buffer that the request head is read into, in one read.
/// What a client sends beyond it is not looked at.
pub const HEAD_LIMIT: usize = 4096;

/// What a request head asks of the proxy.
#[derive(Clone, Debug, PartialEq, Eq)]
pub enum Request {
    /// Nothing that can be answered: no bytes at all, or a `CONNECT` line of
    /// fewer than three tokens.
    Ignore,
    /// `CONNECT` without the credentials that the listener demands.
    Unauthorized,
    /// `CONNECT` to `authority`, a `host:port`.
    Tunnel { authority: Vec<u8> },
    /// Any other method: fetch `uri` and hand back the response.
    Fetch { uri: Vec<u8> },
}

/// Mathematical model of [`Request`].
pub enum RequestView {
    Ignore,
    Unauthorized,
    Tunnel { authority: Seq<u8> },
    Fetch { uri: Seq<u8> },
}

impl View for Request {
    type V = RequestView;

    open spec fn view(&self) -> RequestView {
        match self {
            Request::Ignore => RequestView::Ignore,
            Request::Unauthorized => RequestView::Unauthorized,
            Request::Tunnel { authority } => RequestView::Tunnel { authority: authority@ },
            Request::Fetch { uri } => RequestView::Fetch { uri: uri@ },
        }
    }
}

/// The method name that opens a tunnel.
pub open spec fn connect_method() -> Seq<u8> {
    "CONNECT".spec_bytes()
}

/// Whether `head` may pass a listener with these credentials: without
/// credentials every head may; with them the head has to hold the exact
/// header text somewhere.
pub open spec fn authorized(head: Seq<u8>, credentials: Option<CredentialsView>) -> bool {
    match credentials {
        None => true,
        Some(c) => presentable(c) && occurs_in(head, authorization_header(c)),
    }
}

/// The second token of `head`, or nothing where it has fewer than two.
pub open spec fn second_token(head: Seq<u8>) -> Seq<u8> {
    if tokens(head).len() > 1 {
        tokens(head)[1]
    } else {
        Seq::empty()
    }
}

/// What `head` asks of a listener with these credentials.
pub open spec fn classified(head: Seq<u8>, credentials: Option<CredentialsView>) -> RequestView {
    if head.len() == 0 {
        RequestView::Ignore
    } else if has_prefix(head, connect_method()) {
        if tokens(head).len() < 3 {
            RequestView::Ignore
        } else if !authorized(head, credentials) {
            RequestView::Unauthorized
        } else {
            RequestView::Tunnel { authority: tokens(head)[1] }
        }
    } else {
        RequestView::Fetch { uri: second_token(head) }
    }
}

/// Whether `head` may pass a listener with these credentials.
pub fn is_authorized(head: &[u8], credentials: &Option<Credentials>) -> (ok: bool)
    ensures
        ok == authorized(head@, credentials_view(*credentials)),
{
    match credentials {
        None => true,
        Some(c) => match c.authorization() {
            None => false,
            Some(header) => contains(head, header.as_slice()),
        },
    }
}

/// Reads a request head: the bytes of the first read from the client.
pub fn classify(head: &[u8], credentials: &Option<Credentials>) -> (request: Request)
    ensures
        request@ == classified(head@, credentials_view(*credentials)),
{
    if head.len() == 0 {
        return Request::Ignore;
    }
    let method = text_bytes("CONNECT");
    let mut parts = split_whitespace(head);
    assert(forall|i: int| 0 <= i < parts@.len() ==> parts@[i]@ == #[trigger] rows(parts@)[i]);
    if starts_with(head, method.as_slice()) {
        if parts.len() < 3 {
            return Request::Ignore;
        }
        if !is_authorized(head, credentials) {
            return Request::Unauthorized;
        }
        let authority = parts.remove(1);
        Request::Tunnel { authority }
    } else if parts.len() > 1 {
        let uri = parts.remove(1);
        Request::Fetch { uri }
    } else {
        Request::Fetch { uri: Vec::new() }
    }
}

/// One header of a response, as received.
#[derive(Clone, Debug, PartialEq, Eq)]
pub struct Header {
    pub name: Vec<u8>,
    pub value: Vec<u8>,
}

/// Mathematical model of [`Header`].
pub struct HeaderView {
    pub name: Seq<u8>,
    pub value: Seq<u8>,
}

impl View for Header {
    type V = HeaderView;

    open spec fn view(&self) -> HeaderView {
        HeaderView { name: self.name@, value: self.value@ }
    }
}

/// The models of a sequence of headers.
pub open spec fn header_views(headers: Seq<Header>) -> Seq<HeaderView> {
    Seq::new(headers.len(), |i: int| headers[i]@)
}

/// The end of a line.
pub open spec fn line_end() -> Seq<u8> {
    "\r\n".spec_bytes()
}

/// `name: value` and the end of the line.
pub open spec fn header_line(h: HeaderView) -> Seq<u8> {
    h.name + ": ".spec_bytes() + h.value + line_end()
}

/// The lines of `headers`, one after the other in the order given.
pub open spec fn header_lines(headers: Seq<HeaderView>) -> Seq<u8>
    decreases headers.len(),
{
    if headers.len() == 0 {
        Seq::empty()
    } else {
        header_lines(headers.drop_last()) + header_line(headers.last())
    }
}

/// The head of a response handed back to the client: the status line, the
/// header lines and an empty line.
pub open spec fn response_head(status: Seq<u8>, headers: Seq<HeaderView>) -> Seq<u8> {
    "HTTP/1.1 ".spec_bytes() + status + line_end() + header_lines(headers) + line_end()
}

/// The reply to a `CONNECT` whose target was reached.
pub open spec fn established_reply() -> Seq<u8> {
    "HTTP/1.1 200 Connection Established\r\n\r\n".spec_bytes()
}

/// The reply to a `CONNECT` that lacks the listener's credentials.
pub open spec fn challenge_reply() -> Seq<u8> {
    "HTTP/1.1 407 Proxy Authentication Required\r\nProxy-Authenticate: Basic realm=\"Proxy\"\r\n\r\n".spec_bytes()
}

/// The reply to a request that could not be fetched.
pub open spec fn failure_reply() -> Seq<u8> {
    "HTTP/1.1 500 Internal Server Error\r\n\r\n".spec_bytes()
}

/// Writes the head of a response: `HTTP/1.1`, the status as the server gave
/// it (code and reason), then each header on a line of its own, in the order
/// received, then an empty line.
pub fn format_response_head(status: &[u8], headers: &Vec<Header>) -> (out: Vec<u8>)
    ensures
        out@ == response_head(status@, header_views(headers@)),
{
    let separator = text_bytes(": ");
    let end = text_bytes("\r\n");
    let mut out = text_bytes("HTTP/1.1 ");
    append(&mut out, status);
    append(&mut out, end.as_slice());
    let ghost start = out@;
    let ghost all = header_views(headers@);
    let mut i: usize = 0;
    while i < headers.len()
        invariant
            i <= headers.len(),
            all == header_views(headers@),
            separator@ == ": ".spec_bytes(),
            end@ == line_end(),
            out@ == start + header_lines(all.take(i as int)),
        decreases headers.len() - i,
    {
        let h = &headers[i];
        append(&mut out, h.name.as_slice());
        append(&mut out, separator.as_slice());
        append(&mut out, h.value.as_slice());
        append(&mut out, end.as_slice());
        proof {
            let next = all.take(i + 1);
            assert(next.drop_last() =~= all.take(i as int));
            assert(next.last() == h@);
            assert(out@ =~= start + (header_lines(all.take(i as int)) + header_line(h@)));
        }
        i += 1;
    }
    assert(all.take(headers.len() as int) =~= all);
    append(&mut out, end.as_slice());
    out
}

/// Where a session stands.
#[derive(Clone, Copy, Debug, PartialEq, Eq, Structural)]
pub enum HttpPhase {
    /// Waiting for the request head.
    AwaitingHead,
    /// Waiting for the dial to the tunnel's target to end.
    Dialing,
    /// Waiting for the response to a forwarded request.
    Fetching,
    /// Handed to the relay: the session is over.
    Relaying,
    /// The response body is passed on as it arrives: the session is over.
    Streaming,
    /// Closed without a tunnel or a response.
    Closed,
}

/// What happened outside since the last step.
#[derive(Clone, Debug, PartialEq, Eq)]
pub enum HttpEvent {
    /// The first read gave these bytes (none at end of stream).
    Head(Vec<u8>),
    /// The first read failed.
    ReadFailed,
    /// The target of the tunnel was reached.
    Connected,
    /// The target of the tunnel was not reached.
    ConnectFailed,
    /// The forwarded request was answered with this status and these headers.
    Response { status: Vec<u8>, headers: Vec<Header> },
    /// The forwarded request could not be built or sent.
    FetchFailed,
}

/// Mathematical model of [`HttpEvent`].
pub enum HttpEventView {
    Head(Seq<u8>),
    ReadFailed,
    Connected,
    ConnectFailed,
    Response { status: Seq<u8>, headers: Seq<HeaderView> },
    FetchFailed,
}

impl View for HttpEvent {
    type V = HttpEventView;

    open spec fn view(&self) -> HttpEventView {
        match self {
            HttpEvent::Head(head) => HttpEventView::Head(head@),
            HttpEvent::ReadFailed => HttpEventView::ReadFailed,
            HttpEvent::Connected => HttpEventView::Connected,
            HttpEvent::ConnectFailed => HttpEventView::ConnectFailed,
            HttpEvent::Response { status, headers } => HttpEventView::Response {
                status: status@,
                headers: header_views(headers@),
            },
            HttpEvent::FetchFailed => HttpEventView::FetchFailed,
        }
    }
}

/// What the caller does after sending the reply.
#[derive(Clone, Debug, PartialEq, Eq)]
pub enum HttpNext {
    /// Dial `authority` and report `Connected` or `ConnectFailed`.
    Dial { authority: Vec<u8> },
    /// Request `uri` with `body` as the request's body and report `Response`
    /// or `FetchFailed`.
    Fetch { uri: Vec<u8>, body: Vec<u8> },
    /// Relay between the client and the dialed target until both directions
    /// end.
    Relay,
    /// Pass the response body on to the client chunk by chunk, then close.
    StreamBody,
    /// Close the client's connection.
    Close,
}

/// Mathematical model of [`HttpNext`].
pub enum HttpNextView {
    Dial { authority: Seq<u8> },
    Fetch { uri: Seq<u8>, body: Seq<u8> },
    Relay,
    StreamBody,
    Close,
}

impl View for HttpNext {
    type V = HttpNextView;

    open spec fn view(&self) -> HttpNextView {
        match self {
            HttpNext::Dial { authority } => HttpNextView::Dial { authority: authority@ },
            HttpNext::Fetch { uri, body } => HttpNextView::Fetch { uri: uri@, body: body@ },
            HttpNext::Relay => HttpNextView::Relay,
            HttpNext::StreamBody => HttpNextView::StreamBody,
            HttpNext::Close => HttpNextView::Close,
        }
    }
}

/// One step of a session: the bytes to send to the client, if any, and what
/// to do after that.
#[derive(Clone, Debug, PartialEq, Eq)]
pub struct HttpStep {
    pub reply: Vec<u8>,
    pub next: HttpNext,
}

/// Mathematical model of [`HttpStep`].
pub struct HttpStepView {
    pub reply: Seq<u8>,
    pub next: HttpNextView,
}

impl View for HttpStep {
    type V = HttpStepView;

    open spec fn view(&self) -> HttpStepView {
        HttpStepView { reply: self.reply@, next: self.next@ }
    }
}

/// Closing without a word.
pub open spec fn silent_close() -> HttpStepView {
    HttpStepView { reply: Seq::empty(), next: HttpNextView::Close }
}

/// The phase after `event` arrived in `phase`, and the step to take.
///
/// A tunnel is announced to the client only once its target is reached; a
/// target that is not reached ends the session without a reply. An event
/// that the phase does not wait for ends the session too.
pub open spec fn http_transition(
    credentials: Option<CredentialsView>,
    phase: HttpPhase,
    event: HttpEventView,
) -> (HttpPhase, HttpStepView) {
    match (phase, event) {
        (HttpPhase::AwaitingHead, HttpEventView::Head(head)) => match classified(
            head,
            credentials,
        ) {
            RequestView::Ignore => (HttpPhase::Closed, silent_close()),
            RequestView::Unauthorized => (
                HttpPhase::Closed,
                HttpStepView { reply: challenge_reply(), next: HttpNextView::Close },
            ),
            RequestView::Tunnel { authority } => (
                HttpPhase::Dialing,
                HttpStepView { reply: Seq::empty(), next: HttpNextView::Dial { authority } },
            ),
            RequestView::Fetch { uri } => (
                HttpPhase::Fetching,
                HttpStepView { reply: Seq::empty(), next: HttpNextView::Fetch { uri, body: head } },
            ),
        },
        (HttpPhase::Dialing, HttpEventView::Connected) => (
            HttpPhase::Relaying,
            HttpStepView { reply: established_reply(), next: HttpNextView::Relay },
        ),
        (HttpPhase::Fetching, HttpEventView::Response { status, headers }) => (
            HttpPhase::Streaming,
            HttpStepView { reply: response_head(status, headers), next: HttpNextView::StreamBody },
        ),
        (HttpPhase::Fetching, HttpEventView::FetchFailed) => (
            HttpPhase::Closed,
            HttpStepView { reply: failure_reply(), next: HttpNextView::Close },
        ),
        _ => (HttpPhase::Closed, silent_close()),
    }
}

/// The proxy's side of one client connection.
pub struct HttpSession {
    pub credentials: Option<Credentials>,
    pub phase: HttpPhase,
}

impl HttpSession {
    /// A session that waits for the request head.
    pub fn new(credentials: Option<Credentials>) -> (session: HttpSession)
        ensures
            session.credentials == credentials,
            session.phase == HttpPhase::AwaitingHead,
    {
        HttpSession { credentials, phase: HttpPhase::AwaitingHead }
    }

    /// Whether the session is over: nothing more is to be reported to it.
    pub fn is_over(&self) -> (over: bool)
        ensures
            over == (self.phase == HttpPhase::Relaying || self.phase == HttpPhase::Streaming
                || self.phase == HttpPhase::Closed),
    {
        match self.phase {
            HttpPhase::Relaying | HttpPhase::Streaming | HttpPhase::Closed => true,
            _ => false,
        }
    }

    /// Takes note of `event` and says what to send and what to do next.
    pub fn step(&mut self, event: HttpEvent) -> (step: HttpStep)
        ensures
            final(self).credentials == old(self).credentials,
            (final(self).phase, step@) == http_transition(
                credentials_view(old(self).credentials),
                old(self).phase,
                event@,
            ),
    {
        let phase = self.phase;
        match (phase, event) {
            (HttpPhase::AwaitingHead, HttpEvent::Head(head)) => {
                match classify(head.as_slice(), &self.credentials) {
                    Request::Ignore => {
                        self.phase = HttpPhase::Closed;
                        HttpStep { reply: Vec::new(), next: HttpNext::Close }
                    },
                    Request::Unauthorized => {
                        self.phase = HttpPhase::Closed;
                        HttpStep {
                            reply: text_bytes(
                                "HTTP/1.1 407 Proxy Authentication Required\r\nProxy-Authenticate: Basic realm=\"Proxy\"\r\n\r\n",
                            ),
                            next: HttpNext::Close,
                        }
                    },
                    Request::Tunnel { authority } => {
                        self.phase = HttpPhase::Dialing;
                        HttpStep { reply: Vec::new(), next: HttpNext::Dial { authority } }
                    },
                    Request::Fetch { uri } => {
                        self.phase = HttpPhase::Fetching;
                        HttpStep { reply: Vec::new(), next: HttpNext::Fetch { uri, body: head } }
                    },
                }
            },
            (HttpPhase::Dialing, HttpEvent::Connected) => {
                self.phase = HttpPhase::Relaying;
                HttpStep {
                    reply: text_bytes("HTTP/1.1 200 Connection Established\r\n\r\n"),
                    next: HttpNext::Relay,
                }
            },
            (HttpPhase::Fetching, HttpEvent::Response { status, headers }) => {
                self.phase = HttpPhase::Streaming;
                HttpStep {
                    reply: format_response_head(status.as_slice(), &headers),
                    next: HttpNext::StreamBody,
                }
            },
            (HttpPhase::Fetching, HttpEvent::FetchFailed) => {
                self.phase = HttpPhase::Closed;
                HttpStep {
                    reply: text_bytes("HTTP/1.1 500 Internal Server Error\r\n\r\n"),
                    next: HttpNext::Close,
                }
            },
            _ => {
                self.phase = HttpPhase::Closed;
                HttpStep { reply: Vec::new(), next: HttpNext::Close }
            },
        }
    }
}

/// The method name is seven bytes long, so a head that begins with it is not
/// empty.
pub proof fn lemma_connect_method_len()
    ensures
        connect_method().len() == 7,
{
    reveal_strlit("CONNECT");
    vstd::string::is_ascii_spec_bytes("CONNECT");
}

/// A `CONNECT` line that lacks the header of a listener with credentials is
/// answered with the challenge, and the session closes: nothing is dialed.
pub proof fn lemma_connect_without_header_is_challenged(head: Seq<u8>, c: CredentialsView)
    requires
        has_prefix(head, connect_method()),
        tokens(head).len() >= 3,
        !occurs_in(head, authorization_header(c)),
    ensures
        http_transition(Some(c), HttpPhase::AwaitingHead, HttpEventView::Head(head)) == (
            HttpPhase::Closed,
            HttpStepView { reply: challenge_reply(), next: HttpNextView::Close },
        ),
{
    lemma_connect_method_len();
}

/// A `CONNECT` line that may pass has its second token dialed. The client
/// hears of the tunnel once the target is reached, and the relay starts; if
/// the target is not reached the session closes without a reply.
pub proof fn lemma_connect_opens_a_tunnel(head: Seq<u8>, credentials: Option<CredentialsView>)
    requires
        has_prefix(head, connect_method()),
        tokens(head).len() >= 3,
        authorized(head, credentials),
    ensures
        http_transition(credentials, HttpPhase::AwaitingHead, HttpEventView::Head(head)) == (
            HttpPhase::Dialing,
            HttpStepView {
                reply: Seq::empty(),
                next: HttpNextView::Dial { authority: tokens(head)[1] },
            },
        ),
        http_transition(credentials, HttpPhase::Dialing, HttpEventView::Connected) == (
            HttpPhase::Relaying,
            HttpStepView { reply: established_reply(), next: HttpNextView::Relay },
        ),
        http_transition(credentials, HttpPhase::Dialing, HttpEventView::ConnectFailed) == (
            HttpPhase::Closed,
            silent_close(),
        ),
{
    lemma_connect_method_len();
}

/// Nothing is dialed for a head that may not pass, and a relay starts from a
/// dial alone: a client without the listener's credentials gets no tunnel.
pub proof fn lemma_no_tunnel_without_authorization(
    credentials: Option<CredentialsView>,
    phase: HttpPhase,
    event: HttpEventView,
)
    ensures
        http_transition(credentials, phase, event).1.next is Dial ==> phase
            == HttpPhase::AwaitingHead && event is Head && authorized(event->Head_0, credentials),
        http_transition(credentials, phase, event).0 == HttpPhase::Dialing <==> http_transition(
            credentials,
            phase,
            event,
        ).1.next is Dial,
        http_transition(credentials, phase, event).1.next is Relay ==> phase == HttpPhase::Dialing,
        http_transition(credentials, phase, event).0 == HttpPhase::Relaying <==> http_transition(
            credentials,
            phase,
            event,
        ).1.next is Relay,
{
}

/// A request with another method is fetched: its second token is the URI and
/// the head as read is the body. The response's head goes back to the client
/// with the body behind it, or the failure reply where there is no response.
pub proof fn lemma_other_methods_are_fetched(
    head: Seq<u8>,
    credentials: Option<CredentialsView>,
    status: Seq<u8>,
    headers: Seq<HeaderView>,
)
    requires
        head.len() > 0,
        !has_prefix(head, connect_method()),
    ensures
        http_transition(credentials, HttpPhase::AwaitingHead, HttpEventView::Head(head)) == (
            HttpPhase::Fetching,
            HttpStepView {
                reply: Seq::empty(),
                next: HttpNextView::Fetch { uri: second_token(head), body: head },
            },
        ),
        http_transition(
            credentials,
            HttpPhase::Fetching,
            HttpEventView::Response { status, headers },
        ) == (
            HttpPhase::Streaming,
            HttpStepView { reply: response_head(status, headers), next: HttpNextView::StreamBody },
        ),
        http_transition(credentials, HttpPhase::Fetching, HttpEventView::FetchFailed) == (
            HttpPhase::Closed,
            HttpStepView { reply: failure_reply(), next: HttpNextView::Close },
        ),
{
}

/// A session that is over stays over, and says nothing more.
pub proof fn lemma_http_session_ends(
    credentials: Option<CredentialsView>,
    phase: HttpPhase,
    event: HttpEventView,
)
    requires
        phase == HttpPhase::Relaying || phase == HttpPhase::Streaming || phase
            == HttpPhase::Closed,
    ensures
        http_transition(credentials, phase, event) == (HttpPhase::Closed, silent_close()),
{
}

} // verus!

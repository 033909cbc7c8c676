//! One SOCKS5 session: greeting, method selection, username/password
//! sub-negotiation, connect request and reply.
//!
//! The session does no I/O. It tells its caller how many bytes to read next,
//! what to send and when to dial; the caller reports the bytes read and how
//! the dial ended. A read that fails, or that brings another number of bytes
//! than asked for, ends the session without a reply.

use vstd::prelude::*;

use crate::auth::{credentials_view, Credentials, CredentialsView};
use crate::text::{bytes_eq, copy_range};

verus! {

/// The protocol version that a greeting has to name.
pub const VERSION: u8 = 0x05;

/// Method code: no authentication.
pub const METHOD_NONE: u8 = 0x00;

/// Method code: username and password.
pub const METHOD_PASSWORD: u8 = 0x02;

/// Method code in a reply: none of the offered methods is acceptable.
pub const METHOD_REFUSED: u8 = 0xff;

/// The version byte of a sub-negotiation reply.
pub const AUTH_VERSION: u8 = 0x01;

/// Command code: connect. No other command is served.
pub const COMMAND_CONNECT: u8 = 0x01;

/// Address type: four bytes of IPv4 address.
pub const ADDRESS_IPV4: u8 = 0x01;

/// Address type: a domain name behind one byte that holds its length.
pub const ADDRESS_DOMAIN: u8 = 0x03;

/// Address type: sixteen bytes of IPv6 address.
pub const ADDRESS_IPV6: u8 = 0x04;

/// Where a client asks to be connected to.
#[derive(Clone, Debug, PartialEq, Eq)]
#[allow(inconsistent_fields)]
pub enum Target {
    Ipv4 { address: [u8; 4], port: u16 },
    Domain { name: Vec<u8>, port: u16 },
    Ipv6 { address: [u8; 16], port: u16 },
}

/// Mathematical model of [`Target`].
pub enum TargetView {
    Ipv4 { address: Seq<u8>, port: u16 },
    Domain { name: Seq<u8>, port: u16 },
    Ipv6 { address: Seq<u8>, port: u16 },
}

impl View for Target {
    type V = TargetView;

    open spec fn view(&self) -> TargetView {
        match self {
            Target::Ipv4 { address, port } => TargetView::Ipv4 { address: address@, port: *port },
            Target::Domain { name, port } => TargetView::Domain { name: name@, port: *port },
            Target::Ipv6 { address, port } => TargetView::Ipv6 { address: address@, port: *port },
        }
    }
}

/// Where a session stands. Each phase that reads waits for a fixed number of
/// bytes, given by [`awaited`].
#[derive(Clone, Copy, Debug, PartialEq, Eq, Structural)]
pub enum Socks5Phase {
    /// Waiting for the version and the number of methods.
    Greeting,
    /// Waiting for `count` method codes.
    Methods { count: u8 },
    /// Waiting for the sub-negotiation's version and the username's length.
    AuthHead,
    /// Waiting for a username of `len` bytes and the password's length.
    AuthUser { len: u8 },
    /// Waiting for a password of `len` bytes; `user_ok` says whether the
    /// username was the configured one.
    AuthPassword { user_ok: bool, len: u8 },
    /// Waiting for version, command, reserved byte and address type.
    Request,
    /// Waiting for an IPv4 address and the port.
    Ipv4Address,
    /// Waiting for the length of a domain name.
    DomainLength,
    /// Waiting for a domain name of `len` bytes and the port.
    DomainName { len: u8 },
    /// Waiting for an IPv6 address and the port.
    Ipv6Address,
    /// Waiting for the dial to the target to end.
    Dialing,
    /// Handed to the relay: the session is over.
    Relaying,
    /// Closed without a relay.
    Closed,
}

/// What happened outside since the last step.
#[derive(Clone, Debug, PartialEq, Eq)]
pub enum Socks5Event {
    /// The read that was asked for brought these bytes.
    Received(Vec<u8>),
    /// The read failed or the client closed.
    ReadFailed,
    /// The target was reached.
    Connected,
    /// The target was not reached.
    ConnectFailed,
}

/// Mathematical model of [`Socks5Event`].
pub enum Socks5EventView {
    Received(Seq<u8>),
    ReadFailed,
    Connected,
    ConnectFailed,
}

impl View for Socks5Event {
    type V = Socks5EventView;

    open spec fn view(&self) -> Socks5EventView {
        match self {
            Socks5Event::Received(data) => Socks5EventView::Received(data@),
            Socks5Event::ReadFailed => Socks5EventView::ReadFailed,
            Socks5Event::Connected => Socks5EventView::Connected,
            Socks5Event::ConnectFailed => Socks5EventView::ConnectFailed,
        }
    }
}

/// What the caller does after sending the reply.
#[derive(Clone, Debug, PartialEq, Eq)]
pub enum Socks5Next {
    /// Read exactly `len` bytes and report `Received`, or `ReadFailed`.
    Read { len: usize },
    /// Dial `target` and report `Connected` or `ConnectFailed`.
    Dial { target: Target },
    /// Relay between the client and the dialed target until both directions
    /// end.
    Relay,
    /// Close the client's connection.
    Close,
}

/// Mathematical model of [`Socks5Next`].
pub enum Socks5NextView {
    Read { len: nat },
    Dial { target: TargetView },
    Relay,
    Close,
}

impl View for Socks5Next {
    type V = Socks5NextView;

    open spec fn view(&self) -> Socks5NextView {
        match self {
            Socks5Next::Read { len } => Socks5NextView::Read { len: *len as nat },
            Socks5Next::Dial { target } => Socks5NextView::Dial { target: target@ },
            Socks5Next::Relay => Socks5NextView::Relay,
            Socks5Next::Close => Socks5NextView::Close,
        }
    }
}

/// One step of a session: the bytes to send to the client, if any, and what
/// to do after that.
#[derive(Clone, Debug, PartialEq, Eq)]
pub struct Socks5Step {
    pub reply: Vec<u8>,
    pub next: Socks5Next,
}

/// Mathematical model of [`Socks5Step`].
pub struct Socks5StepView {
    pub reply: Seq<u8>,
    pub next: Socks5NextView,
}

impl View for Socks5Step {
    type V = Socks5StepView;

    open spec fn view(&self) -> Socks5StepView {
        Socks5StepView { reply: self.reply@, next: self.next@ }
    }
}

/// Whether the session reads from the client in this phase.
pub open spec fn reads(phase: Socks5Phase) -> bool {
    !(phase == Socks5Phase::Dialing || phase == Socks5Phase::Relaying || phase
        == Socks5Phase::Closed)
}

/// The number of bytes that a phase waits for.
pub open spec fn awaited(phase: Socks5Phase) -> nat {
    match phase {
        Socks5Phase::Greeting => 2,
        Socks5Phase::Methods { count } => count as nat,
        Socks5Phase::AuthHead => 2,
        Socks5Phase::AuthUser { len } => (len + 1) as nat,
        Socks5Phase::AuthPassword { user_ok, len } => len as nat,
        Socks5Phase::Request => 4,
        Socks5Phase::Ipv4Address => 6,
        Socks5Phase::DomainLength => 1,
        Socks5Phase::DomainName { len } => (len + 2) as nat,
        Socks5Phase::Ipv6Address => 18,
        Socks5Phase::Dialing => 0,
        Socks5Phase::Relaying => 0,
        Socks5Phase::Closed => 0,
    }
}

/// The method that a listener insists on: username and password where it has
/// credentials, no authentication where it has none.
pub open spec fn required_method(credentials: Option<CredentialsView>) -> u8 {
    if credentials is Some {
        METHOD_PASSWORD
    } else {
        METHOD_NONE
    }
}

/// The phase that follows an accepted method.
pub open spec fn phase_after_selection(credentials: Option<CredentialsView>) -> Socks5Phase {
    if credentials is Some {
        Socks5Phase::AuthHead
    } else {
        Socks5Phase::Request
    }
}

/// A port from its two bytes, the high one first.
pub open spec fn port_of(high: u8, low: u8) -> u16 {
    (high * 256 + low) as u16
}

/// The reply to a connect request whose target was reached. The bound address
/// and port are left zero.
pub open spec fn success_reply() -> Seq<u8> {
    seq![0x05u8, 0x00u8, 0x00u8, 0x01u8, 0u8, 0u8, 0u8, 0u8, 0u8, 0u8]
}

/// The reply to a connect request whose target was not reached.
pub open spec fn failure_reply() -> Seq<u8> {
    seq![0x05u8, 0x01u8, 0x00u8, 0x01u8, 0u8, 0u8, 0u8, 0u8, 0u8, 0u8]
}

/// Ending the session without a reply.
pub open spec fn abort() -> (Socks5Phase, Socks5StepView) {
    (Socks5Phase::Closed, Socks5StepView { reply: Seq::empty(), next: Socks5NextView::Close })
}

/// Going on to `phase` without a reply.
pub open spec fn proceed(phase: Socks5Phase) -> (Socks5Phase, Socks5StepView) {
    (phase, Socks5StepView { reply: Seq::empty(), next: Socks5NextView::Read { len: awaited(phase) } })
}

/// Going on to the dial of `target` without a reply.
pub open spec fn dial(target: TargetView) -> (Socks5Phase, Socks5StepView) {
    (
        Socks5Phase::Dialing,
        Socks5StepView { reply: Seq::empty(), next: Socks5NextView::Dial { target } },
    )
}

/// The answer to the methods that a client offers.
pub open spec fn select_method(credentials: Option<CredentialsView>, offered: Seq<u8>) -> (
    Socks5Phase,
    Socks5StepView,
) {
    let method = required_method(credentials);
    if offered.contains(method) {
        let phase = phase_after_selection(credentials);
        (
            phase,
            Socks5StepView {
                reply: seq![VERSION, method],
                next: Socks5NextView::Read { len: awaited(phase) },
            },
        )
    } else {
        (
            Socks5Phase::Closed,
            Socks5StepView { reply: seq![VERSION, METHOD_REFUSED], next: Socks5NextView::Close },
        )
    }
}

/// Whether `username` is the configured one.
pub open spec fn username_matches(credentials: Option<CredentialsView>, username: Seq<u8>) -> bool {
    credentials matches Some(c) && c.username == username
}

/// Whether `password` is the configured one.
pub open spec fn password_matches(credentials: Option<CredentialsView>, password: Seq<u8>) -> bool {
    credentials matches Some(c) && c.password == password
}

/// The answer to a sub-negotiation.
pub open spec fn verdict(accepted: bool) -> (Socks5Phase, Socks5StepView) {
    if accepted {
        (
            Socks5Phase::Request,
            Socks5StepView {
                reply: seq![AUTH_VERSION, 0x00u8],
                next: Socks5NextView::Read { len: awaited(Socks5Phase::Request) },
            },
        )
    } else {
        (
            Socks5Phase::Closed,
            Socks5StepView { reply: seq![AUTH_VERSION, 0x01u8], next: Socks5NextView::Close },
        )
    }
}

/// What follows the four bytes that open a connect request.
pub open spec fn request_head(data: Seq<u8>) -> (Socks5Phase, Socks5StepView) {
    if data[1] != COMMAND_CONNECT {
        abort()
    } else if data[3] == ADDRESS_IPV4 {
        proceed(Socks5Phase::Ipv4Address)
    } else if data[3] == ADDRESS_DOMAIN {
        proceed(Socks5Phase::DomainLength)
    } else if data[3] == ADDRESS_IPV6 {
        proceed(Socks5Phase::Ipv6Address)
    } else {
        abort()
    }
}

/// The phase after `data` arrived in `phase`, and the step to take. `data`
/// has the length that the phase waits for.
pub open spec fn on_data(credentials: Option<CredentialsView>, phase: Socks5Phase, data: Seq<u8>) -> (
    Socks5Phase,
    Socks5StepView,
) {
    match phase {
        Socks5Phase::Greeting => if data[0] == VERSION {
            proceed(Socks5Phase::Methods { count: data[1] })
        } else {
            abort()
        },
        Socks5Phase::Methods { count } => select_method(credentials, data),
        Socks5Phase::AuthHead => proceed(Socks5Phase::AuthUser { len: data[1] }),
        Socks5Phase::AuthUser { len } => proceed(
            Socks5Phase::AuthPassword {
                user_ok: username_matches(credentials, data.take(len as int)),
                len: data[len as int],
            },
        ),
        Socks5Phase::AuthPassword { user_ok, len } => verdict(
            user_ok && password_matches(credentials, data),
        ),
        Socks5Phase::Request => request_head(data),
        Socks5Phase::Ipv4Address => dial(
            TargetView::Ipv4 { address: data.take(4), port: port_of(data[4], data[5]) },
        ),
        Socks5Phase::DomainLength => proceed(Socks5Phase::DomainName { len: data[0] }),
        Socks5Phase::DomainName { len } => dial(
            TargetView::Domain {
                name: data.take(len as int),
                port: port_of(data[len as int], data[len + 1]),
            },
        ),
        Socks5Phase::Ipv6Address => dial(
            TargetView::Ipv6 { address: data.take(16), port: port_of(data[16], data[17]) },
        ),
        _ => abort(),
    }
}

/// The phase after `event` arrived in `phase`, and the step to take.
pub open spec fn socks5_transition(
    credentials: Option<CredentialsView>,
    phase: Socks5Phase,
    event: Socks5EventView,
) -> (Socks5Phase, Socks5StepView) {
    match event {
        Socks5EventView::Received(data) => if reads(phase) && data.len() == awaited(phase) {
            on_data(credentials, phase, data)
        } else {
            abort()
        },
        Socks5EventView::Connected => if phase == Socks5Phase::Dialing {
            (
                Socks5Phase::Relaying,
                Socks5StepView { reply: success_reply(), next: Socks5NextView::Relay },
            )
        } else {
            abort()
        },
        Socks5EventView::ConnectFailed => if phase == Socks5Phase::Dialing {
            (
                Socks5Phase::Closed,
                Socks5StepView { reply: failure_reply(), next: Socks5NextView::Close },
            )
        } else {
            abort()
        },
        Socks5EventView::ReadFailed => abort(),
    }
}

/// The number of bytes that `phase` waits for, or `None` where it does not
/// read.
pub fn expected(phase: Socks5Phase) -> (len: Option<usize>)
    ensures
        len is Some == reads(phase),
        len matches Some(n) ==> n == awaited(phase),
{
    match phase {
        Socks5Phase::Greeting => Some(2),
        Socks5Phase::Methods { count } => Some(count as usize),
        Socks5Phase::AuthHead => Some(2),
        Socks5Phase::AuthUser { len } => Some(len as usize + 1),
        Socks5Phase::AuthPassword { user_ok, len } => Some(len as usize),
        Socks5Phase::Request => Some(4),
        Socks5Phase::Ipv4Address => Some(6),
        Socks5Phase::DomainLength => Some(1),
        Socks5Phase::DomainName { len } => Some(len as usize + 2),
        Socks5Phase::Ipv6Address => Some(18),
        Socks5Phase::Dialing => None,
        Socks5Phase::Relaying => None,
        Socks5Phase::Closed => None,
    }
}

/// A port from its two bytes, the high one first.
pub fn read_port(high: u8, low: u8) -> (port: u16)
    ensures
        port == port_of(high, low),
{
    (high as u16) * 256 + (low as u16)
}

/// Whether `needle` is one of `bytes`.
pub fn offers(bytes: &[u8], needle: u8) -> (found: bool)
    ensures
        found == bytes@.contains(needle),
{
    let mut i: usize = 0;
    while i < bytes.len()
        invariant
            i <= bytes.len(),
            forall|k: int| 0 <= k < i ==> bytes@[k] != needle,
        decreases bytes.len() - i,
    {
        if bytes[i] == needle {
            return true;
        }
        i += 1;
    }
    false
}

/// The proxy's side of one client connection.
pub struct Socks5Session {
    pub credentials: Option<Credentials>,
    pub phase: Socks5Phase,
}

impl Socks5Session {
    /// A session that waits for the greeting.
    pub fn new(credentials: Option<Credentials>) -> (session: Socks5Session)
        ensures
            session.credentials == credentials,
            session.phase == Socks5Phase::Greeting,
    {
        Socks5Session { credentials, phase: Socks5Phase::Greeting }
    }

    /// The step that opens every session: read the greeting's first two bytes.
    pub fn opening() -> (step: Socks5Step)
        ensures
            step@ == proceed(Socks5Phase::Greeting).1,
    {
        Socks5Step { reply: Vec::new(), next: Socks5Next::Read { len: 2 } }
    }

    /// Whether the session is over: nothing more is to be reported to it.
    pub fn is_over(&self) -> (over: bool)
        ensures
            over == (self.phase == Socks5Phase::Relaying || self.phase == Socks5Phase::Closed),
    {
        match self.phase {
            Socks5Phase::Relaying | Socks5Phase::Closed => true,
            _ => false,
        }
    }

    fn close(&mut self, reply: Vec<u8>) -> (step: Socks5Step)
        ensures
            final(self).credentials == old(self).credentials,
            final(self).phase == Socks5Phase::Closed,
            step@ == (Socks5StepView { reply: reply@, next: Socks5NextView::Close }),
    {
        self.phase = Socks5Phase::Closed;
        Socks5Step { reply, next: Socks5Next::Close }
    }

    fn advance(&mut self, phase: Socks5Phase, reply: Vec<u8>) -> (step: Socks5Step)
        requires
            reads(phase),
        ensures
            final(self).credentials == old(self).credentials,
            final(self).phase == phase,
            step@ == (Socks5StepView {
                reply: reply@,
                next: Socks5NextView::Read { len: awaited(phase) },
            }),
    {
        self.phase = phase;
        match expected(phase) {
            Some(len) => Socks5Step { reply, next: Socks5Next::Read { len } },
            None => Socks5Step { reply, next: Socks5Next::Close },
        }
    }

    fn connect(&mut self, target: Target) -> (step: Socks5Step)
        ensures
            final(self).credentials == old(self).credentials,
            (final(self).phase, step@) == dial(target@),
    {
        self.phase = Socks5Phase::Dialing;
        Socks5Step { reply: Vec::new(), next: Socks5Next::Dial { target } }
    }

    fn on_methods(&mut self, offered: &[u8]) -> (step: Socks5Step)
        ensures
            final(self).credentials == old(self).credentials,
            (final(self).phase, step@) == select_method(
                credentials_view(old(self).credentials),
                offered@,
            ),
    {
        let with_password = self.credentials.is_some();
        let method: u8 = if with_password {
            METHOD_PASSWORD
        } else {
            METHOD_NONE
        };
        if offers(offered, method) {
            let reply: Vec<u8> = vec![VERSION, method];
            assert(reply@ =~= seq![VERSION, method]);
            if with_password {
                self.advance(Socks5Phase::AuthHead, reply)
            } else {
                self.advance(Socks5Phase::Request, reply)
            }
        } else {
            let reply: Vec<u8> = vec![VERSION, METHOD_REFUSED];
            assert(reply@ =~= seq![VERSION, METHOD_REFUSED]);
            self.close(reply)
        }
    }

    fn on_verdict(&mut self, accepted: bool) -> (step: Socks5Step)
        ensures
            final(self).credentials == old(self).credentials,
            (final(self).phase, step@) == verdict(accepted),
    {
        if accepted {
            let reply: Vec<u8> = vec![AUTH_VERSION, 0x00u8];
            assert(reply@ =~= seq![AUTH_VERSION, 0x00u8]);
            self.advance(Socks5Phase::Request, reply)
        } else {
            let reply: Vec<u8> = vec![AUTH_VERSION, 0x01u8];
            assert(reply@ =~= seq![AUTH_VERSION, 0x01u8]);
            self.close(reply)
        }
    }

    fn on_request_head(&mut self, data: &[u8]) -> (step: Socks5Step)
        requires
            data@.len() == 4,
        ensures
            final(self).credentials == old(self).credentials,
            (final(self).phase, step@) == request_head(data@),
    {
        if data[1] != COMMAND_CONNECT {
            self.close(Vec::new())
        } else if data[3] == ADDRESS_IPV4 {
            self.advance(Socks5Phase::Ipv4Address, Vec::new())
        } else if data[3] == ADDRESS_DOMAIN {
            self.advance(Socks5Phase::DomainLength, Vec::new())
        } else if data[3] == ADDRESS_IPV6 {
            self.advance(Socks5Phase::Ipv6Address, Vec::new())
        } else {
            self.close(Vec::new())
        }
    }

    fn on_data(&mut self, data: &[u8]) -> (step: Socks5Step)
        requires
            reads(old(self).phase),
            data@.len() == awaited(old(self).phase),
        ensures
            final(self).credentials == old(self).credentials,
            (final(self).phase, step@) == on_data(
                credentials_view(old(self).credentials),
                old(self).phase,
                data@,
            ),
    {
        let phase = self.phase;
        match phase {
            Socks5Phase::Greeting => {
                if data[0] == VERSION {
                    self.advance(Socks5Phase::Methods { count: data[1] }, Vec::new())
                } else {
                    self.close(Vec::new())
                }
            },
            Socks5Phase::Methods { count } => self.on_methods(data),
            Socks5Phase::AuthHead => self.advance(
                Socks5Phase::AuthUser { len: data[1] },
                Vec::new(),
            ),
            Socks5Phase::AuthUser { len } => {
                let n: usize = len as usize;
                let username = copy_range(data, 0, n);
                let user_ok = match &self.credentials {
                    Some(c) => bytes_eq(c.username.as_slice(), username.as_slice()),
                    None => false,
                };
                self.advance(Socks5Phase::AuthPassword { user_ok, len: data[n] }, Vec::new())
            },
            Socks5Phase::AuthPassword { user_ok, len } => {
                let password_ok = match &self.credentials {
                    Some(c) => bytes_eq(c.password.as_slice(), data),
                    None => false,
                };
                self.on_verdict(user_ok && password_ok)
            },
            Socks5Phase::Request => self.on_request_head(data),
            Socks5Phase::Ipv4Address => {
                let address: [u8; 4] = [data[0], data[1], data[2], data[3]];
                assert(address@ =~= data@.take(4));
                let port = read_port(data[4], data[5]);
                self.connect(Target::Ipv4 { address, port })
            },
            Socks5Phase::DomainLength => self.advance(
                Socks5Phase::DomainName { len: data[0] },
                Vec::new(),
            ),
            Socks5Phase::DomainName { len } => {
                let n: usize = len as usize;
                let name = copy_range(data, 0, n);
                let port = read_port(data[n], data[n + 1]);
                self.connect(Target::Domain { name, port })
            },
            Socks5Phase::Ipv6Address => {
                let address: [u8; 16] = [
                    data[0],
                    data[1],
                    data[2],
                    data[3],
                    data[4],
                    data[5],
                    data[6],
                    data[7],
                    data[8],
                    data[9],
                    data[10],
                    data[11],
                    data[12],
                    data[13],
                    data[14],
                    data[15],
                ];
                assert(address@ =~= data@.take(16));
                let port = read_port(data[16], data[17]);
                self.connect(Target::Ipv6 { address, port })
            },
            _ => self.close(Vec::new()),
        }
    }

    /// Takes note of `event` and says what to send and what to do next.
    pub fn step(&mut self, event: Socks5Event) -> (step: Socks5Step)
        ensures
            final(self).credentials == old(self).credentials,
            (final(self).phase, step@) == socks5_transition(
                credentials_view(old(self).credentials),
                old(self).phase,
                event@,
            ),
    {
        let phase = self.phase;
        match event {
            Socks5Event::Received(data) => {
                match expected(phase) {
                    Some(len) => {
                        if data.len() == len {
                            self.on_data(data.as_slice())
                        } else {
                            self.close(Vec::new())
                        }
                    },
                    None => self.close(Vec::new()),
                }
            },
            Socks5Event::Connected => {
                match phase {
                    Socks5Phase::Dialing => {
                        self.phase = Socks5Phase::Relaying;
                        let reply: Vec<u8> = vec![
                            0x05u8,
                            0x00u8,
                            0x00u8,
                            0x01u8,
                            0u8,
                            0u8,
                            0u8,
                            0u8,
                            0u8,
                            0u8,
                        ];
                        assert(reply@ =~= success_reply());
                        Socks5Step { reply, next: Socks5Next::Relay }
                    },
                    _ => self.close(Vec::new()),
                }
            },
            Socks5Event::ConnectFailed => {
                match phase {
                    Socks5Phase::Dialing => {
                        let reply: Vec<u8> = vec![
                            0x05u8,
                            0x01u8,
                            0x00u8,
                            0x01u8,
                            0u8,
                            0u8,
                            0u8,
                            0u8,
                            0u8,
                            0u8,
                        ];
                        assert(reply@ =~= failure_reply());
                        self.close(reply)
                    },
                    _ => self.close(Vec::new()),
                }
            },
            Socks5Event::ReadFailed => self.close(Vec::new()),
        }
    }
}

} // verus!

//! The SOCKS5 handshake message by message: what a session answers to a whole
//! greeting, a whole sub-negotiation and a whole connect request.
//!
//! A session reads a message in several pieces. [`conversation`] follows it
//! through the pieces; the lemmas say what comes out for each message.

use vstd::prelude::*;

use crate::auth::CredentialsView;
use crate::socks5::{
    abort, awaited, dial, port_of, reads, select_method, socks5_transition, verdict,
    Socks5EventView, Socks5NextView, Socks5Phase, Socks5StepView, TargetView, ADDRESS_DOMAIN,
    ADDRESS_IPV4, ADDRESS_IPV6, COMMAND_CONNECT, METHOD_NONE, METHOD_PASSWORD, VERSION,
};

verus! {

/// What a session in `phase` has done once it has read the client's bytes
/// `input` as far as they reach: the phase it is in, every reply it has sent,
/// one behind the other, and what it does next.
///
/// The first read is made in any case; further reads are made as long as the
/// phase reads and `input` still holds as many bytes as it waits for.
pub open spec fn conversation(
    credentials: Option<CredentialsView>,
    phase: Socks5Phase,
    input: Seq<u8>,
) -> (Socks5Phase, Socks5StepView)
    recommends
        reads(phase),
        input.len() >= awaited(phase),
    decreases
            input.len(),
            (if awaited(phase) == 0 {
                1int
            } else {
                0int
            }),
{
    let n = awaited(phase) as int;
    let (then, step) = socks5_transition(
        credentials,
        phase,
        Socks5EventView::Received(input.take(n)),
    );
    if reads(phase) && reads(then) && input.len() - n >= awaited(then) {
        let (last, later) = conversation(credentials, then, input.skip(n));
        (last, Socks5StepView { reply: step.reply + later.reply, next: later.next })
    } else {
        (then, step)
    }
}

/// A greeting that offers `methods`.
pub open spec fn greeting(methods: Seq<u8>) -> Seq<u8> {
    seq![VERSION, methods.len() as u8] + methods
}

/// A username/password sub-negotiation.
pub open spec fn sub_negotiation(version: u8, username: Seq<u8>, password: Seq<u8>) -> Seq<u8> {
    seq![version, username.len() as u8] + username + seq![password.len() as u8] + password
}

/// The four bytes that open a request.
pub open spec fn request_opening(version: u8, command: u8, reserved: u8, kind: u8) -> Seq<u8> {
    seq![version, command, reserved, kind]
}

/// The end of a request: the port, the high byte first.
pub open spec fn port_bytes(high: u8, low: u8) -> Seq<u8> {
    seq![high, low]
}

/// A listener answers a greeting with the method it insists on where the
/// client offers it, and goes on; where the client does not offer it, the
/// listener refuses and closes.
pub proof fn lemma_greeting_selects_method(credentials: Option<CredentialsView>, methods: Seq<u8>)
    requires
        methods.len() <= 255,
    ensures
        conversation(credentials, Socks5Phase::Greeting, greeting(methods)) == select_method(
            credentials,
            methods,
        ),
{
    let input = greeting(methods);
    let count = methods.len() as u8;
    assert(input.take(2) =~= seq![VERSION, count]);
    assert(input.skip(2) =~= methods);
    assert(methods.take(methods.len() as int) =~= methods);
    let (then, step) = socks5_transition(
        credentials,
        Socks5Phase::Greeting,
        Socks5EventView::Received(input.take(2)),
    );
    assert(then == Socks5Phase::Methods { count });
    assert(step.reply =~= Seq::<u8>::empty());
    let (last, later) = conversation(credentials, then, methods);
    assert((last, later) == select_method(credentials, methods));
    assert(step.reply + later.reply =~= later.reply);
}

/// A listener without credentials answers every greeting that offers "no
/// authentication" with `05 00` and waits for the request; it answers every
/// other greeting with `05 FF` and closes.
pub proof fn lemma_greeting_without_credentials(methods: Seq<u8>)
    requires
        methods.len() <= 255,
    ensures
        methods.contains(METHOD_NONE) ==> conversation(
            None,
            Socks5Phase::Greeting,
            greeting(methods),
        ) == (
            Socks5Phase::Request,
            Socks5StepView { reply: seq![0x05u8, 0x00u8], next: Socks5NextView::Read { len: 4 } },
        ),
        !methods.contains(METHOD_NONE) ==> conversation(
            None,
            Socks5Phase::Greeting,
            greeting(methods),
        ) == (
            Socks5Phase::Closed,
            Socks5StepView { reply: seq![0x05u8, 0xffu8], next: Socks5NextView::Close },
        ),
{
    lemma_greeting_selects_method(None, methods);
}

/// A listener with credentials answers every greeting that offers "username
/// and password" with `05 02` and waits for the sub-negotiation; it answers
/// every other greeting with `05 FF` and closes.
pub proof fn lemma_greeting_with_credentials(c: CredentialsView, methods: Seq<u8>)
    requires
        methods.len() <= 255,
    ensures
        methods.contains(METHOD_PASSWORD) ==> conversation(
            Some(c),
            Socks5Phase::Greeting,
            greeting(methods),
        ) == (
            Socks5Phase::AuthHead,
            Socks5StepView { reply: seq![0x05u8, 0x02u8], next: Socks5NextView::Read { len: 2 } },
        ),
        !methods.contains(METHOD_PASSWORD) ==> conversation(
            Some(c),
            Socks5Phase::Greeting,
            greeting(methods),
        ) == (
            Socks5Phase::Closed,
            Socks5StepView { reply: seq![0x05u8, 0xffu8], next: Socks5NextView::Close },
        ),
{
    lemma_greeting_selects_method(Some(c), methods);
}

/// A greeting that does not name version 5 is answered by closing, without a
/// reply, whatever follows its first two bytes.
pub proof fn lemma_greeting_of_other_version(
    credentials: Option<CredentialsView>,
    version: u8,
    count: u8,
    rest: Seq<u8>,
)
    requires
        version != VERSION,
    ensures
        conversation(credentials, Socks5Phase::Greeting, seq![version, count] + rest) == abort(),
{
    let input = seq![version, count] + rest;
    assert(input.take(2) =~= seq![version, count]);
}

/// A sub-negotiation that brings the configured username and password, byte
/// for byte, is answered with `01 00`, and the session waits for the request.
/// Any other is answered with `01 01`, and the session closes.
pub proof fn lemma_sub_negotiation_verdict(
    c: CredentialsView,
    version: u8,
    username: Seq<u8>,
    password: Seq<u8>,
)
    requires
        username.len() <= 255,
        password.len() <= 255,
    ensures
        username == c.username && password == c.password ==> conversation(
            Some(c),
            Socks5Phase::AuthHead,
            sub_negotiation(version, username, password),
        ) == (
            Socks5Phase::Request,
            Socks5StepView { reply: seq![0x01u8, 0x00u8], next: Socks5NextView::Read { len: 4 } },
        ),
        !(username == c.username && password == c.password) ==> conversation(
            Some(c),
            Socks5Phase::AuthHead,
            sub_negotiation(version, username, password),
        ) == (
            Socks5Phase::Closed,
            Socks5StepView { reply: seq![0x01u8, 0x01u8], next: Socks5NextView::Close },
        ),
{
    let credentials = Some(c);
    let input = sub_negotiation(version, username, password);
    let ulen = username.len() as u8;
    let plen = password.len() as u8;
    let accepted = username == c.username && password == c.password;

    // First read: the version and the username's length.
    assert(input.take(2) =~= seq![version, ulen]);
    let rest1 = input.skip(2);
    assert(rest1 =~= username + seq![plen] + password);
    let (phase1, step1) = socks5_transition(
        credentials,
        Socks5Phase::AuthHead,
        Socks5EventView::Received(input.take(2)),
    );
    assert(phase1 == Socks5Phase::AuthUser { len: ulen });
    assert(step1.reply =~= Seq::<u8>::empty());

    // Second read: the username and the password's length.
    let piece2 = rest1.take(ulen + 1);
    assert(piece2 =~= username + seq![plen]);
    assert(piece2.take(ulen as int) =~= username);
    assert(piece2[ulen as int] == plen);
    let rest2 = rest1.skip(ulen + 1);
    assert(rest2 =~= password);
    let (phase2, step2) = socks5_transition(
        credentials,
        phase1,
        Socks5EventView::Received(piece2),
    );
    assert(phase2 == Socks5Phase::AuthPassword { user_ok: username == c.username, len: plen });
    assert(step2.reply =~= Seq::<u8>::empty());

    // Third read: the password.
    assert(rest2.take(plen as int) =~= password);
    let (phase3, step3) = socks5_transition(
        credentials,
        phase2,
        Socks5EventView::Received(rest2.take(plen as int)),
    );
    assert((phase3, step3) == verdict(accepted));
    assert(rest2.skip(plen as int).len() == 0);

    assert(conversation(credentials, phase2, rest2) == (phase3, step3));
    let (last2, later2) = conversation(credentials, phase2, rest2);
    assert(conversation(credentials, phase1, rest1) == (
        last2,
        Socks5StepView { reply: step2.reply + later2.reply, next: later2.next },
    ));
    assert(step2.reply + later2.reply =~= step3.reply);
    let (last1, later1) = conversation(credentials, phase1, rest1);
    assert(step1.reply + later1.reply =~= step3.reply);
}

/// A request to connect to an IPv4 address has that address and port dialed;
/// nothing is sent before the dial has ended.
pub proof fn lemma_request_ipv4(
    credentials: Option<CredentialsView>,
    version: u8,
    reserved: u8,
    address: Seq<u8>,
    high: u8,
    low: u8,
)
    requires
        address.len() == 4,
    ensures
        conversation(
            credentials,
            Socks5Phase::Request,
            request_opening(version, COMMAND_CONNECT, reserved, ADDRESS_IPV4) + address
                + port_bytes(high, low),
        ) == dial(TargetView::Ipv4 { address, port: port_of(high, low) }),
{
    let opening = request_opening(version, COMMAND_CONNECT, reserved, ADDRESS_IPV4);
    let input = opening + address + port_bytes(high, low);
    assert(input.take(4) =~= opening);
    let rest = input.skip(4);
    assert(rest =~= address + port_bytes(high, low));
    assert(rest.take(6) =~= rest);
    assert(rest.take(4) =~= address);
    let (then, step) = socks5_transition(
        credentials,
        Socks5Phase::Request,
        Socks5EventView::Received(opening),
    );
    assert(then == Socks5Phase::Ipv4Address);
    let (last, later) = conversation(credentials, then, rest);
    assert((last, later) == dial(TargetView::Ipv4 { address, port: port_of(high, low) }));
    assert(step.reply + later.reply =~= later.reply);
}

/// A request to connect to an IPv6 address has that address and port dialed.
pub proof fn lemma_request_ipv6(
    credentials: Option<CredentialsView>,
    version: u8,
    reserved: u8,
    address: Seq<u8>,
    high: u8,
    low: u8,
)
    requires
        address.len() == 16,
    ensures
        conversation(
            credentials,
            Socks5Phase::Request,
            request_opening(version, COMMAND_CONNECT, reserved, ADDRESS_IPV6) + address
                + port_bytes(high, low),
        ) == dial(TargetView::Ipv6 { address, port: port_of(high, low) }),
{
    let opening = request_opening(version, COMMAND_CONNECT, reserved, ADDRESS_IPV6);
    let input = opening + address + port_bytes(high, low);
    assert(input.take(4) =~= opening);
    let rest = input.skip(4);
    assert(rest =~= address + port_bytes(high, low));
    assert(rest.take(18) =~= rest);
    assert(rest.take(16) =~= address);
    let (then, step) = socks5_transition(
        credentials,
        Socks5Phase::Request,
        Socks5EventView::Received(opening),
    );
    assert(then == Socks5Phase::Ipv6Address);
    let (last, later) = conversation(credentials, then, rest);
    assert((last, later) == dial(TargetView::Ipv6 { address, port: port_of(high, low) }));
    assert(step.reply + later.reply =~= later.reply);
}

/// A request to connect to a domain name has that name and port dialed.
pub proof fn lemma_request_domain(
    credentials: Option<CredentialsView>,
    version: u8,
    reserved: u8,
    name: Seq<u8>,
    high: u8,
    low: u8,
)
    requires
        name.len() <= 255,
    ensures
        conversation(
            credentials,
            Socks5Phase::Request,
            request_opening(version, COMMAND_CONNECT, reserved, ADDRESS_DOMAIN) + seq![
                name.len() as u8,
            ] + name + port_bytes(high, low),
        ) == dial(TargetView::Domain { name, port: port_of(high, low) }),
{
    let len = name.len() as u8;
    let opening = request_opening(version, COMMAND_CONNECT, reserved, ADDRESS_DOMAIN);
    let input = opening + seq![len] + name + port_bytes(high, low);
    let target = TargetView::Domain { name, port: port_of(high, low) };

    assert(input.take(4) =~= opening);
    let rest1 = input.skip(4);
    assert(rest1 =~= seq![len] + name + port_bytes(high, low));
    let (phase1, step1) = socks5_transition(
        credentials,
        Socks5Phase::Request,
        Socks5EventView::Received(opening),
    );
    assert(phase1 == Socks5Phase::DomainLength);

    assert(rest1.take(1) =~= seq![len]);
    let rest2 = rest1.skip(1);
    assert(rest2 =~= name + port_bytes(high, low));
    let (phase2, step2) = socks5_transition(
        credentials,
        phase1,
        Socks5EventView::Received(rest1.take(1)),
    );
    assert(phase2 == Socks5Phase::DomainName { len });

    assert(rest2.take(len + 2) =~= rest2);
    assert(rest2.take(len as int) =~= name);
    assert(conversation(credentials, phase2, rest2) == dial(target));
    let (last2, later2) = conversation(credentials, phase2, rest2);
    assert(step2.reply + later2.reply =~= later2.reply);
    assert(conversation(credentials, phase1, rest1) == dial(target));
    let (last1, later1) = conversation(credentials, phase1, rest1);
    assert(step1.reply + later1.reply =~= later1.reply);
}

/// A request with another command than connect, or with an address type that
/// is none of the three, is answered by closing, without a reply, whatever
/// follows its first four bytes.
pub proof fn lemma_request_not_served(
    credentials: Option<CredentialsView>,
    version: u8,
    command: u8,
    reserved: u8,
    kind: u8,
    rest: Seq<u8>,
)
    requires
        command != COMMAND_CONNECT || !(kind == ADDRESS_IPV4 || kind == ADDRESS_DOMAIN || kind
            == ADDRESS_IPV6),
    ensures
        conversation(
            credentials,
            Socks5Phase::Request,
            request_opening(version, command, reserved, kind) + rest,
        ) == abort(),
{
    let opening = request_opening(version, command, reserved, kind);
    assert((opening + rest).take(4) =~= opening);
}

/// When the target is reached the session sends the success reply and hands
/// over to the relay. When it is not reached the session sends the failure
/// reply and closes: there is no relay.
pub proof fn lemma_dial_outcome(credentials: Option<CredentialsView>)
    ensures
        socks5_transition(credentials, Socks5Phase::Dialing, Socks5EventView::Connected) == (
            Socks5Phase::Relaying,
            Socks5StepView {
                reply: seq![0x05u8, 0x00u8, 0x00u8, 0x01u8, 0u8, 0u8, 0u8, 0u8, 0u8, 0u8],
                next: Socks5NextView::Relay,
            },
        ),
        socks5_transition(credentials, Socks5Phase::Dialing, Socks5EventView::ConnectFailed) == (
            Socks5Phase::Closed,
            Socks5StepView {
                reply: seq![0x05u8, 0x01u8, 0x00u8, 0x01u8, 0u8, 0u8, 0u8, 0u8, 0u8, 0u8],
                next: Socks5NextView::Close,
            },
        ),
{
}

/// A relay starts from a reached target alone, and a target is dialed for a
/// complete connect request alone.
pub proof fn lemma_relay_needs_a_dial(
    credentials: Option<CredentialsView>,
    phase: Socks5Phase,
    event: Socks5EventView,
)
    ensures
        socks5_transition(credentials, phase, event).1.next is Relay <==> phase
            == Socks5Phase::Dialing && event is Connected,
        socks5_transition(credentials, phase, event).0 == Socks5Phase::Relaying
            <==> socks5_transition(credentials, phase, event).1.next is Relay,
        socks5_transition(credentials, phase, event).1.next is Dial ==> event is Received && (
        phase == Socks5Phase::Ipv4Address || phase == Socks5Phase::Ipv6Address
            || phase matches Socks5Phase::DomainName { .. }),
        socks5_transition(credentials, phase, event).0 == Socks5Phase::Dialing
            <==> socks5_transition(credentials, phase, event).1.next is Dial,
{
}

/// A read that fails ends the session at once and without a reply, in every
/// phase.
pub proof fn lemma_read_failure_is_silent(credentials: Option<CredentialsView>, phase: Socks5Phase)
    ensures
        socks5_transition(credentials, phase, Socks5EventView::ReadFailed) == abort(),
{
}

} // verus!

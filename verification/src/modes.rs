//! The operating modes and how the command line names them.
//!
//! A command line either begins with a mode word (`listen`, `agent`,
//! `forward`, `proxy`), asks for the version or the help text, or holds the
//! options that [`crate::options::parse_arguments`] reads.

use vstd::prelude::*;

use crate::options::texts;
use crate::text::text_eq;

verus! {

/// The protocol that a proxy listener speaks.
#[derive(Clone, Copy, Debug, PartialEq, Eq, Structural)]
pub enum Protocol {
    Http,
    Socks5,
}

/// What a command line asks the program to run.
#[derive(Clone, Debug, PartialEq, Eq)]
pub enum Mode {
    /// `listen <port0> <port1>`: pair the connections of two listeners.
    Listen { port0: String, port1: String },
    /// `agent <addr0> <addr1>`: dial two endpoints and relay between them.
    Agent { addr0: String, addr1: String },
    /// `forward <port> <addr>`: relay each accepted connection to `addr`.
    Forward { port: String, addr: String },
    /// `proxy <protocol> <listen_addr> [<username> <password> | -no-auth]`.
    Proxy { protocol: Protocol, listen_addr: String, login: Option<(String, String)> },
    /// `-version`.
    Version,
    /// `-help`.
    Help,
    /// A mode word with the wrong arguments: show the usage.
    Usage,
    /// No mode word: the command line holds options.
    Options,
}

/// Mathematical model of [`Mode`].
pub enum ModeView {
    Listen { port0: Seq<char>, port1: Seq<char> },
    Agent { addr0: Seq<char>, addr1: Seq<char> },
    Forward { port: Seq<char>, addr: Seq<char> },
    Proxy { protocol: Protocol, listen_addr: Seq<char>, login: Option<(Seq<char>, Seq<char>)> },
    Version,
    Help,
    Usage,
    Options,
}

impl View for Mode {
    type V = ModeView;

    open spec fn view(&self) -> ModeView {
        match self {
            Mode::Listen { port0, port1 } => ModeView::Listen { port0: port0@, port1: port1@ },
            Mode::Agent { addr0, addr1 } => ModeView::Agent { addr0: addr0@, addr1: addr1@ },
            Mode::Forward { port, addr } => ModeView::Forward { port: port@, addr: addr@ },
            Mode::Proxy { protocol, listen_addr, login } => ModeView::Proxy {
                protocol: *protocol,
                listen_addr: listen_addr@,
                login: match login {
                    Some((username, password)) => Some((username@, password@)),
                    None => None,
                },
            },
            Mode::Version => ModeView::Version,
            Mode::Help => ModeView::Help,
            Mode::Usage => ModeView::Usage,
            Mode::Options => ModeView::Options,
        }
    }
}

/// The protocol that a word names, if any.
pub open spec fn protocol_named(word: Seq<char>) -> Option<Protocol> {
    if word == "http"@ {
        Some(Protocol::Http)
    } else if word == "socks5"@ {
        Some(Protocol::Socks5)
    } else {
        None
    }
}

/// What the arguments behind `proxy` ask for. `args[1]` is the word `proxy`.
pub open spec fn proxy_selected(args: Seq<Seq<char>>) -> ModeView {
    if args.len() < 4 || args.len() > 6 {
        ModeView::Usage
    } else {
        match protocol_named(args[2]) {
            None => ModeView::Usage,
            Some(protocol) => if args.len() == 4 {
                ModeView::Proxy { protocol, listen_addr: args[3], login: None }
            } else if args.len() == 5 {
                if args[4] == "-no-auth"@ {
                    ModeView::Proxy { protocol, listen_addr: args[3], login: None }
                } else {
                    ModeView::Usage
                }
            } else {
                ModeView::Proxy { protocol, listen_addr: args[3], login: Some((args[4], args[5])) }
            },
        }
    }
}

/// What a command line asks for. `args[0]` is the program's name.
pub open spec fn selected(args: Seq<Seq<char>>) -> ModeView {
    if args.len() < 2 {
        ModeView::Options
    } else if args[1] == "-version"@ {
        ModeView::Version
    } else if args[1] == "-help"@ {
        ModeView::Help
    } else if args[1] == "listen"@ {
        if args.len() == 4 {
            ModeView::Listen { port0: args[2], port1: args[3] }
        } else {
            ModeView::Usage
        }
    } else if args[1] == "agent"@ {
        if args.len() == 4 {
            ModeView::Agent { addr0: args[2], addr1: args[3] }
        } else {
            ModeView::Usage
        }
    } else if args[1] == "forward"@ {
        if args.len() == 4 {
            ModeView::Forward { port: args[2], addr: args[3] }
        } else {
            ModeView::Usage
        }
    } else if args[1] == "proxy"@ {
        proxy_selected(args)
    } else {
        ModeView::Options
    }
}

/// The protocol that `word` names, if any.
pub fn parse_protocol(word: &str) -> (protocol: Option<Protocol>)
    ensures
        protocol == protocol_named(word@),
{
    if text_eq(word, "http") {
        Some(Protocol::Http)
    } else if text_eq(word, "socks5") {
        Some(Protocol::Socks5)
    } else {
        None
    }
}

fn select_proxy(args: &[String]) -> (mode: Mode)
    requires
        args@.len() >= 2,
    ensures
        mode@ == proxy_selected(texts(args@)),
{
    if args.len() < 4 || args.len() > 6 {
        return Mode::Usage;
    }
    let protocol = match parse_protocol(args[2].as_str()) {
        None => {
            return Mode::Usage;
        },
        Some(protocol) => protocol,
    };
    let listen_addr = args[3].clone();
    if args.len() == 4 {
        Mode::Proxy { protocol, listen_addr, login: None }
    } else if args.len() == 5 {
        if text_eq(args[4].as_str(), "-no-auth") {
            Mode::Proxy { protocol, listen_addr, login: None }
        } else {
            Mode::Usage
        }
    } else {
        Mode::Proxy { protocol, listen_addr, login: Some((args[4].clone(), args[5].clone())) }
    }
}

/// Reads the mode off a command line. `args[0]` is the program's name.
pub fn select_mode(args: &[String]) -> (mode: Mode)
    ensures
        mode@ == selected(texts(args@)),
{
    if args.len() < 2 {
        return Mode::Options;
    }
    let word = args[1].as_str();
    if text_eq(word, "-version") {
        Mode::Version
    } else if text_eq(word, "-help") {
        Mode::Help
    } else if text_eq(word, "listen") {
        if args.len() == 4 {
            Mode::Listen { port0: args[2].clone(), port1: args[3].clone() }
        } else {
            Mode::Usage
        }
    } else if text_eq(word, "agent") {
        if args.len() == 4 {
            Mode::Agent { addr0: args[2].clone(), addr1: args[3].clone() }
        } else {
            Mode::Usage
        }
    } else if text_eq(word, "forward") {
        if args.len() == 4 {
            Mode::Forward { port: args[2].clone(), addr: args[3].clone() }
        } else {
            Mode::Usage
        }
    } else if text_eq(word, "proxy") {
        select_proxy(args)
    } else {
        Mode::Options
    }
}

} // verus!

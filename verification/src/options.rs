//! Command-line options of the proxy: port, credentials and debug logging.
//!
//! [`parse_arguments`] only computes. Printing the help text and the warnings
//! about unknown arguments is left to the caller, which finds what to print in
//! the returned [`Settings`].

use vstd::prelude::*;

use crate::auth::{credentials_view, Credentials, CredentialsView};
use crate::text::{text_bytes, text_eq};

verus! {

/// Port the proxy listens on when `-p` is not given.
pub const DEFAULT_PORT: &'static str = "8000";

/// Password used when a username is given with an empty password.
pub const DEFAULT_PASSWD: &'static str = "anonymous";

/// Log file used by `-d`.
pub const DEFAULT_LOGPATH: &'static str = "rdnat.log";

/// What the command line asked for.
#[derive(Clone, Debug, PartialEq, Eq)]
pub struct Settings {
    pub port: String,
    pub username: String,
    pub password: String,
    pub log_path: Option<String>,
    /// The first argument was `-h` or `--help`; no other argument was read.
    pub help: bool,
    /// Arguments that are no option, in the order given.
    pub unknown: Vec<String>,
}

/// Mathematical model of [`Settings`].
pub struct SettingsView {
    pub port: Seq<char>,
    pub username: Seq<char>,
    pub password: Seq<char>,
    pub log_path: Option<Seq<char>>,
    pub help: bool,
    pub unknown: Seq<Seq<char>>,
}

/// Why a command line was rejected.
#[derive(Clone, Copy, Debug, PartialEq, Eq, Structural)]
pub enum ArgumentError {
    /// `-p` or `--port` was the last argument.
    MissingPort,
    /// `-a` or `--auth` was followed by fewer than two arguments.
    MissingCredentials,
}

/// The characters of each string of a sequence.
pub open spec fn texts(args: Seq<String>) -> Seq<Seq<char>> {
    Seq::new(args.len(), |i: int| args[i]@)
}

impl View for Settings {
    type V = SettingsView;

    open spec fn view(&self) -> SettingsView {
        SettingsView {
            port: self.port@,
            username: self.username@,
            password: self.password@,
            log_path: match self.log_path {
                Some(p) => Some(p@),
                None => None,
            },
            help: self.help,
            unknown: texts(self.unknown@),
        }
    }
}

pub open spec fn is_help_flag(arg: Seq<char>) -> bool {
    arg == "-h"@ || arg == "--help"@
}

pub open spec fn is_port_flag(arg: Seq<char>) -> bool {
    arg == "-p"@ || arg == "--port"@
}

pub open spec fn is_auth_flag(arg: Seq<char>) -> bool {
    arg == "-a"@ || arg == "--auth"@
}

pub open spec fn is_debug_flag(arg: Seq<char>) -> bool {
    arg == "-d"@ || arg == "--debug"@
}

/// The settings before any argument is read.
pub open spec fn defaults() -> SettingsView {
    SettingsView {
        port: DEFAULT_PORT@,
        username: Seq::empty(),
        password: Seq::empty(),
        log_path: None,
        help: false,
        unknown: Seq::empty(),
    }
}

/// Reads the arguments from index `i` on, left to right, into `acc`. A later
/// option replaces what an earlier one set.
pub open spec fn scan(args: Seq<Seq<char>>, i: int, acc: SettingsView) -> Result<
    SettingsView,
    ArgumentError,
>
    decreases args.len() - i,
{
    if i < 0 || i >= args.len() {
        Ok(acc)
    } else if is_port_flag(args[i]) {
        if i + 1 < args.len() {
            scan(args, i + 2, SettingsView { port: args[i + 1], ..acc })
        } else {
            Err(ArgumentError::MissingPort)
        }
    } else if is_auth_flag(args[i]) {
        if i + 2 < args.len() {
            scan(args, i + 3, SettingsView { username: args[i + 1], password: args[i + 2], ..acc })
        } else {
            Err(ArgumentError::MissingCredentials)
        }
    } else if is_debug_flag(args[i]) {
        scan(args, i + 1, SettingsView { log_path: Some(DEFAULT_LOGPATH@), ..acc })
    } else {
        scan(args, i + 1, SettingsView { unknown: acc.unknown.push(args[i]), ..acc })
    }
}

/// Without a username there is no password; a username without a password
/// gets the default one.
pub open spec fn normalized(s: SettingsView) -> SettingsView {
    if s.username.len() == 0 {
        SettingsView { password: Seq::empty(), ..s }
    } else if s.password.len() == 0 {
        SettingsView { password: DEFAULT_PASSWD@, ..s }
    } else {
        s
    }
}

/// What a whole command line means. `args[0]` is the program's name.
pub open spec fn parsed(args: Seq<Seq<char>>) -> Result<SettingsView, ArgumentError> {
    if args.len() > 1 && is_help_flag(args[1]) {
        Ok(SettingsView { help: true, ..defaults() })
    } else {
        match scan(args, 1, defaults()) {
            Ok(s) => Ok(normalized(s)),
            Err(e) => Err(e),
        }
    }
}

/// The credentials that a listener with these settings demands: the UTF-8
/// bytes of username and password where neither is empty, none otherwise.
pub open spec fn demanded(s: SettingsView) -> Option<CredentialsView> {
    if s.username.len() > 0 && s.password.len() > 0 {
        Some(
            CredentialsView {
                username: vstd::utf8::encode_utf8(s.username),
                password: vstd::utf8::encode_utf8(s.password),
            },
        )
    } else {
        None
    }
}

/// The model of a parse result.
pub open spec fn outcome_view(r: Result<Settings, ArgumentError>) -> Result<
    SettingsView,
    ArgumentError,
> {
    match r {
        Ok(s) => Ok(s@),
        Err(e) => Err(e),
    }
}

impl ArgumentError {
    /// The text shown to the user for this error.
    pub fn message(&self) -> (text: String)
        ensures
            *self == ArgumentError::MissingPort ==> text@
                == "Error: Missing argument for -p or --port"@,
            *self == ArgumentError::MissingCredentials ==> text@
                == "Error: Missing username or password for -auth or -a"@,
    {
        match self {
            ArgumentError::MissingPort => "Error: Missing argument for -p or --port".to_owned(),
            ArgumentError::MissingCredentials => {
                "Error: Missing username or password for -auth or -a".to_owned()
            },
        }
    }
}

impl Settings {
    /// The settings of a command line without arguments.
    pub fn new() -> (s: Settings)
        ensures
            s@ == defaults(),
    {
        let s = Settings {
            port: DEFAULT_PORT.to_owned(),
            username: String::new(),
            password: String::new(),
            log_path: None,
            help: false,
            unknown: Vec::new(),
        };
        assert(s@.unknown =~= Seq::empty());
        s
    }

    /// The credentials that the listener demands of its clients, if any.
    pub fn credentials(&self) -> (c: Option<Credentials>)
        ensures
            credentials_view(c) == demanded(self@),
    {
        if self.username.as_str().is_empty() || self.password.as_str().is_empty() {
            None
        } else {
            Some(
                Credentials::new(
                    text_bytes(self.username.as_str()),
                    text_bytes(self.password.as_str()),
                ),
            )
        }
    }
}

/// Reads a command line. `args[0]` is the program's name and is skipped.
///
/// `-h` or `--help` as first argument ends the reading at once. Otherwise the
/// options are `-p <port>`, `-a <username> <password>` and `-d`, under their
/// long names `--port`, `--auth` and `--debug` too; any other argument is
/// collected in `unknown` and otherwise ignored.
pub fn parse_arguments(args: &[String]) -> (r: Result<Settings, ArgumentError>)
    ensures
        outcome_view(r) == parsed(texts(args@)),
{
    let ghost all = texts(args@);
    let mut s = Settings::new();
    if args.len() > 1 && (text_eq(args[1].as_str(), "-h") || text_eq(args[1].as_str(), "--help")) {
        s.help = true;
        return Ok(s);
    }
    let mut i: usize = 1;
    while i < args.len()
        invariant
            1 <= i,
            all == texts(args@),
            !(all.len() > 1 && is_help_flag(all[1])),
            scan(all, i as int, s@) == scan(all, 1, defaults()),
        decreases args.len() - i,
    {
        let arg = args[i].as_str();
        assert(all[i as int] == arg@);
        if text_eq(arg, "-p") || text_eq(arg, "--port") {
            if args.len() - i > 1 {
                s.port = args[i + 1].clone();
                i += 2;
            } else {
                return Err(ArgumentError::MissingPort);
            }
        } else if text_eq(arg, "-a") || text_eq(arg, "--auth") {
            if args.len() - i > 2 {
                s.username = args[i + 1].clone();
                s.password = args[i + 2].clone();
                i += 3;
            } else {
                return Err(ArgumentError::MissingCredentials);
            }
        } else if text_eq(arg, "-d") || text_eq(arg, "--debug") {
            s.log_path = Some(DEFAULT_LOGPATH.to_owned());
            i += 1;
        } else {
            let ghost before = s.unknown@;
            s.unknown.push(args[i].clone());
            assert(texts(s.unknown@) =~= texts(before).push(arg@));
            i += 1;
        }
    }
    if s.username.as_str().is_empty() {
        s.password = String::new();
    } else if s.password.as_str().is_empty() {
        s.password = DEFAULT_PASSWD.to_owned();
    }
    Ok(s)
}

} // verus!

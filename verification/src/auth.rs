//! Credentials of a listener and the two ways a client presents them: the
//! `Proxy-Authorization` header of an HTTP request and the username/password
//! pair of a SOCKS5 sub-negotiation.

use vstd::prelude::*;
use vstd::string::StringSliceAdditionalSpecFns;

use crate::encoding::{base64_standard, encodable, encode_standard};
use crate::text::{append, bytes_eq, text_bytes};

verus! {

/// A username and a password, as bytes.
#[derive(Clone, Debug, PartialEq, Eq)]
pub struct Credentials {
    pub username: Vec<u8>,
    pub password: Vec<u8>,
}

/// Mathematical model of [`Credentials`].
pub struct CredentialsView {
    pub username: Seq<u8>,
    pub password: Seq<u8>,
}

impl View for Credentials {
    type V = CredentialsView;

    open spec fn view(&self) -> CredentialsView {
        CredentialsView { username: self.username@, password: self.password@ }
    }
}

/// The model of optional credentials.
pub open spec fn credentials_view(c: Option<Credentials>) -> Option<CredentialsView> {
    match c {
        Some(c) => Some(c@),
        None => None,
    }
}

/// `username:password`, the text that Basic authentication encodes.
pub open spec fn user_pass(c: CredentialsView) -> Seq<u8> {
    c.username + seq![0x3au8] + c.password
}

/// The beginning of the header line that carries Basic credentials.
pub open spec fn authorization_prefix() -> Seq<u8> {
    "Proxy-Authorization: Basic ".spec_bytes()
}

/// The header text a request has to hold to be let through.
pub open spec fn authorization_header(c: CredentialsView) -> Seq<u8> {
    authorization_prefix() + base64_standard(user_pass(c))
}

/// Whether `username:password` is short enough to be encoded.
pub open spec fn presentable(c: CredentialsView) -> bool {
    encodable(user_pass(c).len())
}

impl Credentials {
    pub fn new(username: Vec<u8>, password: Vec<u8>) -> (c: Credentials)
        ensures
            c@.username == username@,
            c@.password == password@,
    {
        Credentials { username, password }
    }

    /// Whether `username` and `password` are these credentials, byte for byte.
    pub fn matches(&self, username: &[u8], password: &[u8]) -> (ok: bool)
        ensures
            ok == (username@ == self@.username && password@ == self@.password),
    {
        bytes_eq(self.username.as_slice(), username) && bytes_eq(
            self.password.as_slice(),
            password,
        )
    }

    /// `username:password` as one byte string, or `None` where its length
    /// cannot be encoded.
    fn joined(&self) -> (r: Option<Vec<u8>>)
        ensures
            r is Some == presentable(self@),
            r matches Some(v) ==> v@ == user_pass(self@),
    {
        let limit: usize = (isize::MAX as usize) / 4 * 3;
        if self.username.len() >= limit || self.password.len() >= limit - self.username.len() {
            return None;
        }
        let mut joined: Vec<u8> = Vec::new();
        append(&mut joined, self.username.as_slice());
        joined.push(0x3au8);
        append(&mut joined, self.password.as_slice());
        Some(joined)
    }

    /// The `Proxy-Authorization` header text for these credentials, or `None`
    /// where they are too long to be encoded at all.
    pub fn authorization(&self) -> (header: Option<Vec<u8>>)
        ensures
            header is Some == presentable(self@),
            header matches Some(h) ==> h@ == authorization_header(self@),
    {
        match self.joined() {
            None => None,
            Some(joined) => {
                let encoded = encode_standard(joined.as_slice());
                let mut header = text_bytes("Proxy-Authorization: Basic ");
                append(&mut header, encoded.as_slice());
                Some(header)
            },
        }
    }
}

} // verus!

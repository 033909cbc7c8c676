pub mod auth;
pub mod bridge;
pub mod encoding;
pub mod handshake;
pub mod http;
pub mod modes;
pub mod options;
pub mod relay;
pub mod socks5;
pub mod text;
pub mod tokens;

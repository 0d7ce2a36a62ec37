//! Settings that the platforms are set up from.
use vstd::prelude::*;

verus! {

/// A key with its secret.
#[derive(Clone, Debug, PartialEq, Eq)]
pub struct Token {
    pub key: String,
    pub secret: String,
}

/// Credentials of a Twitter application and of the account it posts for.
#[derive(Clone, Debug, PartialEq, Eq)]
pub struct Twitter {
    pub consumer: Token,
    pub access: Token,
}

/// Credentials of a Gab account.
#[derive(Clone, Debug, PartialEq, Eq)]
pub struct Gab {
    pub token: String,
}

/// Address and credentials of a Mastodon account.
#[derive(Clone, Debug, PartialEq, Eq)]
pub struct Mastodon {
    pub host: String,
    pub access_token: String,
}

/// Credentials of a Minds account.
#[derive(Clone, Debug, PartialEq, Eq)]
pub struct Minds {
    pub username: String,
    pub password: String,
}

/// The platforms that a run posts to.
#[derive(Clone, Copy, Debug, PartialEq, Eq, Structural)]
pub struct Platforms {
    pub gab: bool,
    pub twitter: bool,
    pub minds: bool,
}

/// Settings that hold for every platform.
#[derive(Clone, Copy, Debug, PartialEq, Eq, Structural)]
pub struct Settings {
    /// Seconds after which a request is given up.
    pub timeout: u64,
}

} // verus!

//! What can go wrong while publishing.
use vstd::prelude::*;
use vstd::string::StringExecFns;
use crate::data::PlatformId;

verus! {

/// Why one platform did not take a request.
#[derive(Clone, Debug, PartialEq, Eq)]
pub enum PlatformError {
    /// The client holds no credentials that the platform accepts.
    Unauthorized,
    /// The request did not reach the platform; the text says why.
    Transport(String),
    /// The platform answered with a status other than success.
    Status(u16),
    /// The platform's answer could not be read; the text says why.
    Decode(String),
    /// The platform needs an attachment and none was uploaded.
    NoAttachment,
}

/// Why a publish call, or one platform's part of it, failed.
#[derive(Clone, Debug, PartialEq, Eq)]
pub enum ApiError {
    /// An image could not be loaded: its path and the cause.
    CannotLoadImage(String, String),
    /// Twitter error
    Twitter(PlatformError),
    /// Gab error
    Gab(PlatformError),
    /// Mastodon error
    Mastodon(PlatformError),
    /// Minds error
    Minds(PlatformError),
}

/// The character that stands for a digit below ten.
pub open spec fn digit(d: nat) -> char {
    if d == 0 {
        '0'
    } else if d == 1 {
        '1'
    } else if d == 2 {
        '2'
    } else if d == 3 {
        '3'
    } else if d == 4 {
        '4'
    } else if d == 5 {
        '5'
    } else if d == 6 {
        '6'
    } else if d == 7 {
        '7'
    } else if d == 8 {
        '8'
    } else {
        '9'
    }
}

/// A number written in decimal, without leading zeros.
pub open spec fn decimal(n: nat) -> Seq<char>
    decreases n,
{
    if n < 10 {
        seq![digit(n)]
    } else {
        decimal(n / 10) + seq![digit(n % 10)]
    }
}

fn digit_text(d: u64) -> (text: &'static str)
    requires
        d < 10,
    ensures
        text@ == seq![digit(d as nat)],
{
    proof {
        reveal_strlit("0");
        reveal_strlit("1");
        reveal_strlit("2");
        reveal_strlit("3");
        reveal_strlit("4");
        reveal_strlit("5");
        reveal_strlit("6");
        reveal_strlit("7");
        reveal_strlit("8");
        reveal_strlit("9");
    }
    let text = if d == 0 {
        "0"
    } else if d == 1 {
        "1"
    } else if d == 2 {
        "2"
    } else if d == 3 {
        "3"
    } else if d == 4 {
        "4"
    } else if d == 5 {
        "5"
    } else if d == 6 {
        "6"
    } else if d == 7 {
        "7"
    } else if d == 8 {
        "8"
    } else {
        "9"
    };
    assert(text@ =~= seq![digit(d as nat)]);
    text
}

/// Writes a number in decimal.
pub fn decimal_text(n: u64) -> (text: String)
    ensures
        text@ == decimal(n as nat),
    decreases n,
{
    if n < 10 {
        String::from_str(digit_text(n))
    } else {
        let mut text = decimal_text(n / 10);
        text.append(digit_text(n % 10));
        text
    }
}

impl PlatformError {
    /// The error in words.
    pub open spec fn text(self) -> Seq<char> {
        match self {
            PlatformError::Unauthorized => "client is not authorized"@,
            PlatformError::Transport(why) => "request failed: "@ + why@,
            PlatformError::Status(code) => "server returned error code "@ + decimal(code as nat),
            PlatformError::Decode(why) => "unreadable response: "@ + why@,
            PlatformError::NoAttachment => "no attachment was uploaded"@,
        }
    }

    /// The error in words.
    pub fn message(&self) -> (text: String)
        ensures
            text@ == self.text(),
    {
        match self {
            PlatformError::Unauthorized => String::from_str("client is not authorized"),
            PlatformError::Transport(why) => {
                let mut text = String::from_str("request failed: ");
                text.append(why.as_str());
                text
            },
            PlatformError::Status(code) => {
                let mut text = String::from_str("server returned error code ");
                let number = decimal_text(*code as u64);
                text.append(number.as_str());
                text
            },
            PlatformError::Decode(why) => {
                let mut text = String::from_str("unreadable response: ");
                text.append(why.as_str());
                text
            },
            PlatformError::NoAttachment => String::from_str("no attachment was uploaded"),
        }
    }
}

impl ApiError {
    /// The error that a platform's failure is reported as.
    pub open spec fn of(id: PlatformId, cause: PlatformError) -> ApiError {
        match id {
            PlatformId::Twitter => ApiError::Twitter(cause),
            PlatformId::Gab => ApiError::Gab(cause),
            PlatformId::Mastodon => ApiError::Mastodon(cause),
            PlatformId::Minds => ApiError::Minds(cause),
        }
    }

    /// The platform that the error comes from, if it comes from one.
    pub open spec fn origin(self) -> Option<PlatformId> {
        match self {
            ApiError::CannotLoadImage(_, _) => None,
            ApiError::Twitter(_) => Some(PlatformId::Twitter),
            ApiError::Gab(_) => Some(PlatformId::Gab),
            ApiError::Mastodon(_) => Some(PlatformId::Mastodon),
            ApiError::Minds(_) => Some(PlatformId::Minds),
        }
    }

    /// The error in words.
    pub open spec fn text(self) -> Seq<char> {
        match self {
            ApiError::CannotLoadImage(name, cause) => "Error opening image '"@ + name@
                + "'. Error: "@ + cause@,
            ApiError::Twitter(cause) => "Twitter API Error: "@ + cause.text(),
            ApiError::Gab(cause) => "Gab API Error: "@ + cause.text(),
            ApiError::Mastodon(cause) => "Mastodon API Error: "@ + cause.text(),
            ApiError::Minds(cause) => "MindsError API Error: "@ + cause.text(),
        }
    }

    /// Reports a platform's failure under the platform it comes from.
    pub fn from_platform(id: PlatformId, cause: PlatformError) -> (error: ApiError)
        ensures
            error == ApiError::of(id, cause),
            error.origin() == Some(id),
    {
        match id {
            PlatformId::Twitter => ApiError::Twitter(cause),
            PlatformId::Gab => ApiError::Gab(cause),
            PlatformId::Mastodon => ApiError::Mastodon(cause),
            PlatformId::Minds => ApiError::Minds(cause),
        }
    }

    /// The platform that the error comes from, if it comes from one.
    pub fn platform(&self) -> (id: Option<PlatformId>)
        ensures
            id == self.origin(),
    {
        match self {
            ApiError::CannotLoadImage(_, _) => None,
            ApiError::Twitter(_) => Some(PlatformId::Twitter),
            ApiError::Gab(_) => Some(PlatformId::Gab),
            ApiError::Mastodon(_) => Some(PlatformId::Mastodon),
            ApiError::Minds(_) => Some(PlatformId::Minds),
        }
    }

    /// The error in words.
    pub fn message(&self) -> (text: String)
        ensures
            text@ == self.text(),
    {
        match self {
            ApiError::CannotLoadImage(name, cause) => {
                let mut text = String::from_str("Error opening image '");
                text.append(name.as_str());
                text.append("'. Error: ");
                text.append(cause.as_str());
                text
            },
            ApiError::Twitter(cause) => {
                let mut text = String::from_str("Twitter API Error: ");
                let why = cause.message();
                text.append(why.as_str());
                text
            },
            ApiError::Gab(cause) => {
                let mut text = String::from_str("Gab API Error: ");
                let why = cause.message();
                text.append(why.as_str());
                text
            },
            ApiError::Mastodon(cause) => {
                let mut text = String::from_str("Mastodon API Error: ");
                let why = cause.message();
                text.append(why.as_str());
                text
            },
            ApiError::Minds(cause) => {
                let mut text = String::from_str("MindsError API Error: ");
                let why = cause.message();
                text.append(why.as_str());
                text
            },
        }
    }
}

} // verus!

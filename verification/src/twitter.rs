//!Twitter accessing module
use vstd::prelude::*;
use vstd::string::StringExecFns;
use crate::config;
use crate::data::{compose_with, composed, tag_texts, PostId};
use crate::error::{decimal, decimal_text};

verus! {

/// What is reported of a tweet that was posted: its identifier, its text
/// on a line of its own, and an empty line.
pub open spec fn tweet_report(id: u64, text: Seq<char>) -> Seq<char> {
    "Posted tweet(id="@ + decimal(id as nat) + "):\n"@ + text + "\n\n"@
}

///Twitter client.
#[derive(Clone, Debug, PartialEq, Eq)]
pub struct Client {
    /// Key and secret of the application.
    pub consumer: config::Token,
    /// Key and secret of the account.
    pub access: config::Token,
}

impl Client {
    ///Creates new instances and initializes token.
    pub fn new(config: config::Twitter) -> (client: Client)
        ensures
            client == (Client { consumer: config.consumer, access: config.access }),
    {
        Client { consumer: config.consumer, access: config.access }
    }

    ///Posts new tweet.
    ///
    ///The text of the tweet is the message with the hashtags on a line of
    ///their own; without tags it is the message alone, and without a
    ///message the hashtags alone.
    pub fn post(&self, message: &str, tags: &Option<Vec<String>>) -> (text: String)
        ensures
            text@ == composed(message@, tag_texts(*tags)),
    {
        compose_with(String::from_str(message), tags)
    }

    /// The identifier of a tweet as the outcome of a post carries it.
    pub fn posted(id: u64) -> (post: PostId)
        ensures
            post@ == decimal(id as nat),
    {
        decimal_text(id)
    }

    /// What is to be reported of a tweet that was posted.
    pub fn handle_post(id: u64, text: &str) -> (report: String)
        ensures
            report@ == tweet_report(id, text@),
    {
        let mut report = String::from_str("Posted tweet(id=");
        let number = decimal_text(id);
        report.append(number.as_str());
        report.append("):\n");
        report.append(text);
        report.append("\n\n");
        report
    }
}

} // verus!

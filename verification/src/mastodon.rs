//! Mastodon accessing module
use vstd::prelude::*;
use vstd::string::StringExecFns;
use crate::config;
use crate::error::PlatformError;
use crate::http::{read_as, read_text, Reply};

verus! {

/// Mastodon client.
#[derive(Clone, Debug, PartialEq, Eq)]
pub struct Client {
    pub config: config::Mastodon,
}

impl Client {
    /// Creates new instance of client.
    pub fn new(config: config::Mastodon) -> (client: Client)
        ensures
            client == (Client { config }),
    {
        Client { config }
    }

    /// The token that requests are authorized with.
    pub fn auth(&self) -> (token: String)
        ensures
            token == self.config.access_token,
    {
        self.config.access_token.clone()
    }

    /// Where posts are created on the client's host.
    pub fn post_url(&self) -> (url: String)
        ensures
            url@ == self.config.host@ + "/api/v1/statuses"@,
    {
        let mut url = self.config.host.clone();
        url.append("/api/v1/statuses");
        url
    }

    /// Where images are uploaded to on the client's host.
    pub fn images_url(&self) -> (url: String)
        ensures
            url@ == self.config.host@ + "/api/v1/media"@,
    {
        let mut url = self.config.host.clone();
        url.append("/api/v1/media");
        url
    }

    /// The reference of an uploaded image, read from the answer to its
    /// upload.
    pub fn uploaded(reply: Reply) -> (id: Result<String, PlatformError>)
        ensures
            read_as(reply, "id"@, id),
    {
        read_text(reply, "id")
    }

    /// The identifier of a created post, read from the answer to the
    /// request that creates it.
    pub fn posted(reply: Reply) -> (id: Result<String, PlatformError>)
        ensures
            read_as(reply, "id"@, id),
    {
        read_text(reply, "id")
    }
}

} // verus!

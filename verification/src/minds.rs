//! Minds accessing module
use vstd::prelude::*;
use crate::config;
use crate::data::PostFlags;
use crate::error::PlatformError;
use crate::http::{body_text, read_as, read_text, Reply, Request};
use crate::json::json_text;

verus! {

/// Where an account logs in.
pub const OAUTH2_URL: &'static str = "https://www.minds.com/oauth2/token";

/// Where images are uploaded to.
pub const IMAGES_URL: &'static str = "https://www.minds.com/api/v1/media";

/// Where posts are created.
pub const POST_URL: &'static str = "https://www.minds.com/api/v1/newsfeed";

/// The login request of an account.
#[derive(Clone, Debug, PartialEq, Eq)]
pub struct Auth<'a> {
    pub grant_type: &'static str,
    pub client_id: &'static str,
    pub client_secret: &'static str,
    pub username: &'a str,
    pub password: &'a str,
}

impl<'a> Auth<'a> {
    /// The request that logs an account in with its password.
    pub fn new(username: &'a str, password: &'a str) -> (auth: Self)
        ensures
            auth.grant_type@ == "password"@,
            auth.client_id@ == ""@,
            auth.client_secret@ == ""@,
            auth.username == username,
            auth.password == password,
    {
        Auth { grant_type: "password", client_id: "", client_secret: "", username, password }
    }
}

/// What Minds hands out when an account has logged in.
#[derive(Clone, Debug, PartialEq, Eq)]
pub struct Oauth2 {
    pub access_token: String,
    pub user_id: String,
    pub refresh_token: String,
}

/// Whether `read` is what reading a login from `body` comes to: the three
/// texts of a login where the body holds them all, and otherwise a failure
/// that names the first that is missing.
pub open spec fn login_as(body: Seq<u8>, read: Result<Oauth2, PlatformError>) -> bool {
    let access_token = json_text(body, "access_token"@);
    let user_id = json_text(body, "user_id"@);
    let refresh_token = json_text(body, "refresh_token"@);
    if access_token is None {
        read matches Err(PlatformError::Decode(missing)) && missing@ == "access_token"@
    } else if user_id is None {
        read matches Err(PlatformError::Decode(missing)) && missing@ == "user_id"@
    } else if refresh_token is None {
        read matches Err(PlatformError::Decode(missing)) && missing@ == "refresh_token"@
    } else {
        &&& read matches Ok(login)
        &&& login.access_token@ == access_token->Some_0
        &&& login.user_id@ == user_id->Some_0
        &&& login.refresh_token@ == refresh_token->Some_0
    }
}

impl Oauth2 {
    /// Reads a login from the body of an answer.
    pub fn read(body: &Vec<u8>) -> (read: Result<Oauth2, PlatformError>)
        ensures
            login_as(body@, read),
    {
        let access_token = match body_text(body, "access_token") {
            Ok(text) => text,
            Err(cause) => {
                return Err(cause);
            },
        };
        let user_id = match body_text(body, "user_id") {
            Ok(text) => text,
            Err(cause) => {
                return Err(cause);
            },
        };
        let refresh_token = match body_text(body, "refresh_token") {
            Ok(text) => text,
            Err(cause) => {
                return Err(cause);
            },
        };
        Ok(Oauth2 { access_token, user_id, refresh_token })
    }
}

/// A post as Minds takes it.
#[derive(Clone, Debug, PartialEq, Eq)]
pub struct Post<'a> {
    pub wire_threshold: Option<String>,
    pub message: &'a str,
    pub is_rich: u8,
    pub title: Option<String>,
    pub description: Option<String>,
    pub thumbnail: Option<String>,
    pub url: Option<String>,
    pub attachment_guid: Option<String>,
    pub mature: u8,
    pub access_id: u8,
}

impl<'a> Post<'a> {
    /// A plain public post with a text, at most one attachment, and marked
    /// as mature where the flags say so.
    pub fn new(message: &'a str, attachment_guid: Option<String>, flags: &PostFlags) -> (post: Self)
        ensures
            post == (Post {
                wire_threshold: None,
                message,
                is_rich: 0,
                title: None,
                description: None,
                thumbnail: None,
                url: None,
                attachment_guid,
                mature: if flags.nsfw {
                    1u8
                } else {
                    0u8
                },
                access_id: 2,
            }),
    {
        Post {
            wire_threshold: None,
            message,
            is_rich: 0,
            title: None,
            description: None,
            thumbnail: None,
            url: None,
            attachment_guid,
            mature: if flags.nsfw {
                1
            } else {
                0
            },
            access_id: 2,
        }
    }
}

/// Whether `read` is what reading an answer that names a `guid` makes of
/// a reply: the failure of a reply that did not arrive or did not succeed,
/// the `guid` where the body holds one, and otherwise a failure that names
/// it as missing.
pub open spec fn guid_as(reply: Reply, read: Result<String, PlatformError>) -> bool {
    read_as(reply, "guid"@, read)
}

/// What Minds answers to an upload.
#[derive(Clone, Debug, PartialEq, Eq)]
pub struct UploadResponse {
    pub guid: String,
}

impl UploadResponse {
    /// Reads the answer to an upload.
    pub fn read(reply: Reply) -> (read: Result<UploadResponse, PlatformError>)
        ensures
            match read {
                Ok(response) => guid_as(reply, Ok(response.guid)),
                Err(cause) => guid_as(reply, Err(cause)),
            },
    {
        match read_text(reply, "guid") {
            Ok(guid) => Ok(UploadResponse { guid }),
            Err(cause) => Err(cause),
        }
    }
}

/// What Minds answers to a post.
#[derive(Clone, Debug, PartialEq, Eq)]
pub struct PostResponse {
    pub guid: String,
}

impl PostResponse {
    /// Reads the answer to a post.
    pub fn read(reply: Reply) -> (read: Result<PostResponse, PlatformError>)
        ensures
            match read {
                Ok(response) => guid_as(reply, Ok(response.guid)),
                Err(cause) => guid_as(reply, Err(cause)),
            },
    {
        match read_text(reply, "guid") {
            Ok(guid) => Ok(PostResponse { guid }),
            Err(cause) => Err(cause),
        }
    }
}

/// The attachment that a post on Minds carries: the first of those that
/// were uploaded, if there is one.
pub open spec fn first_attachment(attachments: Seq<String>) -> Option<String> {
    if attachments.len() == 0 {
        None
    } else {
        Some(attachments[0])
    }
}

/// Minds client: the account it is to log in with, or the login it holds.
#[derive(Clone, Debug, PartialEq, Eq)]
pub enum Minds {
    NotStarted(config::Minds),
    Started(Oauth2),
}

impl Minds {
    /// Whether the client holds a login.
    pub open spec fn authorized(self) -> bool {
        self is Started
    }

    /// A client that has yet to log in.
    pub fn new(config: config::Minds) -> (client: Minds)
        ensures
            client == Minds::NotStarted(config),
    {
        Minds::NotStarted(config)
    }

    /// Whether the client holds a login.
    pub fn is_started(&self) -> (started: bool)
        ensures
            started == self.authorized(),
    {
        match self {
            Minds::Started(_) => true,
            Minds::NotStarted(_) => false,
        }
    }

    /// The request that logs the client in: that of its account while it
    /// holds no login, none once it does.
    pub fn login(&self) -> (request: Option<Auth<'_>>)
        ensures
            match *self {
                Minds::NotStarted(account) => request matches Some(auth) && auth.grant_type@
                    == "password"@ && auth.client_id@ == ""@ && auth.client_secret@ == ""@
                    && auth.username@ == account.username@ && auth.password@ == account.password@,
                Minds::Started(_) => request is None,
            },
    {
        match self {
            Minds::NotStarted(account) => Some(
                Auth::new(account.username.as_str(), account.password.as_str()),
            ),
            Minds::Started(_) => None,
        }
    }

    /// Takes in the answer to the login request. A client that holds a
    /// login keeps it. One that holds none takes the login that the answer
    /// carries; where no answer arrived or it carries no login, the client
    /// stays as it is and the failure is handed on.
    pub fn started(&mut self, reply: Reply) -> (done: Result<(), PlatformError>)
        ensures
            old(self).authorized() ==> done is Ok && *final(self) == *old(self),
            !old(self).authorized() ==> match reply {
                Err(why) => done == Err::<(), PlatformError>(PlatformError::Transport(why))
                    && *final(self) == *old(self),
                Ok(response) => exists|read: Result<Oauth2, PlatformError>|
                    {
                        &&& #[trigger] login_as(response.body@, read)
                        &&& match read {
                            Ok(login) => done is Ok && *final(self) == Minds::Started(login),
                            Err(cause) => done == Err::<(), PlatformError>(cause) && *final(self)
                                == *old(self),
                        }
                    },
            },
    {
        if self.is_started() {
            return Ok(());
        }
        match reply {
            Err(why) => Err(PlatformError::Transport(why)),
            Ok(response) => {
                let read = Oauth2::read(&response.body);
                match read {
                    Ok(login) => {
                        *self = Minds::Started(login);
                        Ok(())
                    },
                    Err(cause) => Err(cause),
                }
            },
        }
    }

    /// The token that requests are authorized with, where the client holds
    /// a login.
    pub fn token(&self) -> (token: Result<&String, PlatformError>)
        ensures
            match *self {
                Minds::Started(login) => token == Ok::<&String, PlatformError>(&login.access_token),
                Minds::NotStarted(_) => token == Err::<&String, PlatformError>(
                    PlatformError::Unauthorized,
                ),
            },
    {
        match self {
            Minds::Started(login) => Ok(&login.access_token),
            Minds::NotStarted(_) => Err(PlatformError::Unauthorized),
        }
    }

    /// The request that uploads an image, where the client holds a login.
    pub fn upload_image<'a, I>(&self, image: &'a I) -> (request: Result<
        Request<&'a I>,
        PlatformError,
    >)
        ensures
            match *self {
                Minds::Started(login) => request matches Ok(upload) && upload.url@ == IMAGES_URL@
                    && upload.token == login.access_token && upload.payload == image,
                Minds::NotStarted(_) => request == Err::<Request<&'a I>, PlatformError>(
                    PlatformError::Unauthorized,
                ),
            },
    {
        match self.token() {
            Ok(token) => Ok(Request { url: IMAGES_URL, token: token.clone(), payload: image }),
            Err(cause) => Err(cause),
        }
    }

    /// The reference of an uploaded image, read from the answer to its
    /// upload.
    pub fn uploaded(reply: Reply) -> (guid: Result<String, PlatformError>)
        ensures
            guid_as(reply, guid),
    {
        match UploadResponse::read(reply) {
            Ok(response) => Ok(response.guid),
            Err(cause) => Err(cause),
        }
    }

    /// The request that creates a post, where the client holds a login. Of
    /// the attachments the post carries the first alone.
    pub fn post<'a>(&self, content: &'a str, attachments: &Vec<String>, flags: &PostFlags) -> (request:
        Result<Request<Post<'a>>, PlatformError>)
        ensures
            match *self {
                Minds::Started(login) => request matches Ok(create) && create.url@ == POST_URL@
                    && create.token == login.access_token && create.payload == (Post {
                    wire_threshold: None,
                    message: content,
                    is_rich: 0,
                    title: None,
                    description: None,
                    thumbnail: None,
                    url: None,
                    attachment_guid: first_attachment(attachments@),
                    mature: if flags.nsfw {
                        1u8
                    } else {
                        0u8
                    },
                    access_id: 2,
                }),
                Minds::NotStarted(_) => request == Err::<Request<Post<'a>>, PlatformError>(
                    PlatformError::Unauthorized,
                ),
            },
    {
        match self.token() {
            Ok(token) => {
                let attachment = if attachments.len() == 0 {
                    None
                } else {
                    Some(attachments[0].clone())
                };
                Ok(
                    Request {
                        url: POST_URL,
                        token: token.clone(),
                        payload: Post::new(content, attachment, flags),
                    },
                )
            },
            Err(cause) => Err(cause),
        }
    }

    /// The identifier of a created post, read from the answer to the
    /// request that creates it.
    pub fn posted(reply: Reply) -> (guid: Result<String, PlatformError>)
        ensures
            guid_as(reply, guid),
    {
        match PostResponse::read(reply) {
            Ok(response) => Ok(response.guid),
            Err(cause) => Err(cause),
        }
    }
}

} // verus!

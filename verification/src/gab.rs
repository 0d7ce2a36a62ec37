//! Gab accessing module
use vstd::prelude::*;
use vstd::string::StringExecFns;
use crate::config;
use crate::error::{decimal, decimal_text, PlatformError};
use crate::http::{read_as, read_text, Reply, Request};

verus! {

/// Where posts are created.
pub const POST_URL: &'static str = "https://gab.ai/posts";

/// Where images are uploaded to.
pub const IMAGES_URL: &'static str = "https://gab.ai/api/media-attachments/images";

/// A post as Gab takes it.
#[derive(Clone, Debug, PartialEq, Eq)]
pub struct Post<'a> {
    pub body: &'a str,
    pub reply_to: String,
    pub is_quote: u8,
    pub gif: String,
    pub category: Option<String>,
    pub topic: Option<String>,
    pub share_twitter: bool,
    pub share_facebook: bool,
    pub is_replies_disabled: bool,
    pub media_attachments: Vec<String>,
}

impl<'a> Post<'a> {
    /// Whether the post is a plain one with the given text and
    /// attachments: no reply, no quote, no picture from a catalogue, no
    /// category or topic, shared nowhere else and open to replies.
    pub open spec fn plain(self, message: &'a str, attachments: Seq<String>) -> bool {
        &&& self.body == message
        &&& self.reply_to@.len() == 0
        &&& self.is_quote == 0
        &&& self.gif@.len() == 0
        &&& self.category is None
        &&& self.topic is None
        &&& !self.share_twitter
        &&& !self.share_facebook
        &&& !self.is_replies_disabled
        &&& self.media_attachments@ =~= attachments
    }

    /// A plain post with a text and no attachments.
    pub fn new(message: &'a str) -> (post: Self)
        ensures
            post.plain(message, Seq::empty()),
    {
        Post {
            body: message,
            reply_to: String::new(),
            is_quote: 0,
            gif: String::new(),
            category: None,
            topic: None,
            share_twitter: false,
            share_facebook: false,
            is_replies_disabled: false,
            media_attachments: Vec::new(),
        }
    }
}

/// What Gab answers to an upload.
#[derive(Clone, Debug, PartialEq, Eq)]
pub struct UploadResponse {
    pub id: String,
}

impl UploadResponse {
    /// Reads the answer to an upload.
    pub fn read(reply: Reply) -> (read: Result<UploadResponse, PlatformError>)
        ensures
            match read {
                Ok(response) => read_as(reply, "id"@, Ok(response.id)),
                Err(cause) => read_as(reply, "id"@, Err(cause)),
            },
    {
        match read_text(reply, "id") {
            Ok(id) => Ok(UploadResponse { id }),
            Err(cause) => Err(cause),
        }
    }
}

/// What is reported of a post on Gab: under a heading, that it went well
/// where the answer has the status 200, the status where it has another,
/// and why no answer arrived where none did.
pub open spec fn post_report(result: Result<u16, String>) -> Seq<char> {
    ">>>Gab:\n"@ + match result {
        Ok(status) => if status == 200 {
            "OK"@
        } else {
            "Failed to post. Status: "@ + decimal(status as nat)
        },
        Err(why) => why@,
    } + "\n"@
}

///Gab.ai Client
#[derive(Clone, Debug, PartialEq, Eq)]
pub struct Client {
    pub config: config::Gab,
}

impl Client {
    ///Creates new instance of client.
    pub fn new(config: config::Gab) -> (client: Client)
        ensures
            client == (Client { config }),
    {
        Client { config }
    }

    /// The token that requests are authorized with.
    pub fn auth(&self) -> (token: String)
        ensures
            token == self.config.token,
    {
        self.config.token.clone()
    }

    ///Uploads image to gab.ai.
    pub fn upload_image<'a, I>(&self, image: &'a I) -> (request: Request<&'a I>)
        ensures
            request.url@ == IMAGES_URL@,
            request.token == self.config.token,
            request.payload == image,
    {
        Request { url: IMAGES_URL, token: self.auth(), payload: image }
    }

    ///Post new message.
    pub fn post<'a>(&self, message: &'a str) -> (request: Request<Post<'a>>)
        ensures
            request.url@ == POST_URL@,
            request.token == self.config.token,
            request.payload.plain(message, Seq::empty()),
    {
        Request { url: POST_URL, token: self.auth(), payload: Post::new(message) }
    }

    ///Posts new message with image
    pub fn post_w_images<'a>(&self, message: &'a str, images: &Vec<String>) -> (request: Request<
        Post<'a>,
    >)
        ensures
            request.url@ == POST_URL@,
            request.token == self.config.token,
            request.payload.plain(message, images@),
    {
        let mut payload = Post::new(message);
        let mut i: usize = 0;
        while i < images.len()
            invariant
                i <= images.len(),
                payload.plain(message, images@.take(i as int)),
            decreases images.len() - i,
        {
            payload.media_attachments.push(images[i].clone());
            proof {
                assert(images@.take(i + 1) =~= images@.take(i as int).push(images@[i as int]));
            }
            i += 1;
        }
        proof {
            assert(images@.take(images.len() as int) =~= images@);
        }
        Request { url: POST_URL, token: self.auth(), payload }
    }

    /// The reference of an uploaded image, read from the answer to its
    /// upload.
    pub fn uploaded(reply: Reply) -> (id: Result<String, PlatformError>)
        ensures
            read_as(reply, "id"@, id),
    {
        match UploadResponse::read(reply) {
            Ok(response) => Ok(response.id),
            Err(cause) => Err(cause),
        }
    }

    /// The identifier of a created post, read from the answer to the
    /// request that creates it.
    pub fn posted(reply: Reply) -> (id: Result<String, PlatformError>)
        ensures
            read_as(reply, "id"@, id),
    {
        read_text(reply, "id")
    }

    /// What is to be reported of a post, given the status of the answer or
    /// why none arrived.
    pub fn handle_post(result: Result<u16, String>) -> (report: String)
        ensures
            report@ == post_report(result),
    {
        let mut report = String::from_str(">>>Gab:\n");
        match result {
            Ok(status) => {
                if status != 200 {
                    report.append("Failed to post. Status: ");
                    let number = decimal_text(status as u64);
                    report.append(number.as_str());
                } else {
                    report.append("OK");
                }
            },
            Err(why) => {
                report.append(why.as_str());
            },
        }
        report.append("\n");
        report
    }
}

} // verus!

//! The values that a publish call works on.
use vstd::prelude::*;
use vstd::string::StringExecFns;

verus! {

/// Platform-assigned identifier of a created post.
pub type PostId = String;

/// The platforms that a message can be published to, in the order in which
/// their outcomes are reported.
#[derive(Clone, Copy, Debug, PartialEq, Eq, Structural)]
pub enum PlatformId {
    Twitter,
    Gab,
    Mastodon,
    Minds,
}

impl PlatformId {
    /// Position of the platform in the reporting order.
    pub open spec fn position(self) -> int {
        match self {
            PlatformId::Twitter => 0,
            PlatformId::Gab => 1,
            PlatformId::Mastodon => 2,
            PlatformId::Minds => 3,
        }
    }

    /// Whether a post on the platform carries at most one attachment.
    pub open spec fn single_attachment(self) -> bool {
        self == PlatformId::Minds
    }

    /// Position of the platform in the reporting order.
    pub fn index(self) -> (i: usize)
        ensures
            i == self.position(),
    {
        match self {
            PlatformId::Twitter => 0,
            PlatformId::Gab => 1,
            PlatformId::Mastodon => 2,
            PlatformId::Minds => 3,
        }
    }

    /// The platform at a position of the reporting order.
    pub fn from_index(i: usize) -> (id: Option<PlatformId>)
        ensures
            i < 4 ==> id is Some && id.unwrap().position() == i,
            i >= 4 ==> id is None,
    {
        if i == 0 {
            Some(PlatformId::Twitter)
        } else if i == 1 {
            Some(PlatformId::Gab)
        } else if i == 2 {
            Some(PlatformId::Mastodon)
        } else if i == 3 {
            Some(PlatformId::Minds)
        } else {
            None
        }
    }

    /// Whether a post on the platform carries at most one attachment.
    pub fn is_single_attachment(self) -> (single: bool)
        ensures
            single == self.single_attachment(),
    {
        match self {
            PlatformId::Minds => true,
            _ => false,
        }
    }
}

/// Markers that a post carries to every platform.
#[derive(Clone, Debug, PartialEq, Eq)]
pub struct PostFlags {
    /// The content is not safe for work.
    pub nsfw: bool,
}

/// One message to publish.
#[derive(Clone, Debug, PartialEq, Eq)]
pub struct Post {
    /// Text of the message, possibly empty.
    pub message: String,
    /// Hashtags, without the leading `#`, in the order they are shown.
    pub tags: Vec<String>,
    /// Markers of the post.
    pub flags: PostFlags,
    /// Paths of the images to attach, in order.
    pub images: Vec<String>,
}

/// An image held in memory, ready to be uploaded.
#[derive(Clone, Debug, PartialEq, Eq)]
pub struct Image {
    /// File name of the image.
    pub name: String,
    /// MIME type of the image.
    pub mime: String,
    /// Bytes of the image.
    pub content: Vec<u8>,
}

/// The character contents of a sequence of strings.
pub open spec fn texts(items: Seq<String>) -> Seq<Seq<char>> {
    Seq::new(items.len(), |i: int| items[i]@)
}

/// A tag written as a hashtag.
pub open spec fn hash_tag(tag: Seq<char>) -> Seq<char> {
    seq!['#'] + tag
}

/// The hashtags of `tags`, in order, with one space between neighbours.
pub open spec fn hash_tag_line(tags: Seq<Seq<char>>) -> Seq<char>
    decreases tags.len(),
{
    if tags.len() == 0 {
        Seq::empty()
    } else if tags.len() == 1 {
        hash_tag(tags[0])
    } else {
        hash_tag_line(tags.drop_last()) + seq![' '] + hash_tag(tags.last())
    }
}

/// The text that is published for a message and its tags: the message alone
/// without tags, the hashtag line alone without a message, and otherwise the
/// message followed by the hashtag line on a line of its own.
pub open spec fn composed(message: Seq<char>, tags: Seq<Seq<char>>) -> Seq<char> {
    if tags.len() == 0 {
        message
    } else if message.len() == 0 {
        hash_tag_line(tags)
    } else {
        message + seq!['\n'] + hash_tag_line(tags)
    }
}

/// Writes the tags as one line of hashtags.
pub fn join_hash_tags(tags: &Vec<String>) -> (line: String)
    ensures
        line@ == hash_tag_line(texts(tags@)),
{
    let mut line = String::new();
    let mut i: usize = 0;
    while i < tags.len()
        invariant
            i <= tags.len(),
            line@ == hash_tag_line(texts(tags@).take(i as int)),
        decreases tags.len() - i,
    {
        proof {
            reveal_strlit(" ");
            reveal_strlit("#");
            let next = texts(tags@).take(i + 1);
            assert(next.drop_last() =~= texts(tags@).take(i as int));
            assert(next.last() == tags@[i as int]@);
            assert(" "@ =~= seq![' ']);
            assert("#"@ =~= seq!['#']);
        }
        if i > 0 {
            line.append(" ");
        }
        line.append("#");
        line.append(tags[i].as_str());
        proof {
            assert(line@ =~= hash_tag_line(texts(tags@).take(i + 1)));
        }
        i += 1;
    }
    proof {
        assert(texts(tags@).take(tags.len() as int) =~= texts(tags@));
    }
    line
}

/// Puts the published text together from a message and its tags.
pub fn compose(message: String, tags: &Vec<String>) -> (text: String)
    ensures
        text@ == composed(message@, texts(tags@)),
{
    if tags.len() == 0 {
        message
    } else if message.as_str().is_empty() {
        join_hash_tags(tags)
    } else {
        let mut text = message;
        let line = join_hash_tags(tags);
        proof {
            reveal_strlit("\n");
            assert("\n"@ =~= seq!['\n']);
        }
        text.append("\n");
        text.append(line.as_str());
        text
    }
}

/// The character contents of tags that may be absent: no tags where none
/// were given.
pub open spec fn tag_texts(tags: Option<Vec<String>>) -> Seq<Seq<char>> {
    match tags {
        Some(tags) => texts(tags@),
        None => Seq::empty(),
    }
}

/// Puts the published text together from a message and the tags that were
/// given beside it, if any were.
pub fn compose_with(message: String, tags: &Option<Vec<String>>) -> (text: String)
    ensures
        text@ == composed(message@, tag_texts(*tags)),
{
    match tags {
        Some(tags) => compose(message, tags),
        None => message,
    }
}

/// Without a message the published text is the hashtag line alone.
pub proof fn lemma_tags_alone(tags: Seq<Seq<char>>)
    requires
        tags.len() > 0,
    ensures
        composed(Seq::empty(), tags) == hash_tag_line(tags),
{
}

/// Without tags the published text is the message alone, and a text that
/// was put together stays as it is when it is put together again without
/// tags.
pub proof fn lemma_message_alone(message: Seq<char>, tags: Seq<Seq<char>>)
    ensures
        composed(message, Seq::empty()) == message,
        composed(composed(message, tags), Seq::empty()) == composed(message, tags),
{
}

/// The hashtag line starts with the first hashtag; every further tag adds
/// exactly one space and its hashtag.
pub proof fn lemma_hash_tag_line_front(tags: Seq<Seq<char>>)
    requires
        tags.len() > 0,
    ensures
        hash_tag_line(tags) == if tags.len() == 1 {
            hash_tag(tags[0])
        } else {
            hash_tag(tags[0]) + seq![' '] + hash_tag_line(tags.skip(1))
        },
    decreases tags.len(),
{
    if tags.len() == 2 {
        let front = tags.drop_last();
        let rest = tags.skip(1);
        assert(front.len() == 1 && front[0] == tags[0]);
        assert(rest.len() == 1 && rest[0] == tags.last());
        assert(hash_tag_line(front) == hash_tag(tags[0]));
        assert(hash_tag_line(rest) == hash_tag(tags.last()));
    } else if tags.len() > 2 {
        let front = tags.drop_last();
        let rest = tags.skip(1);
        lemma_hash_tag_line_front(front);
        assert(front.skip(1) =~= rest.drop_last());
        assert(rest.last() == tags.last());
        assert(front[0] == tags[0]);
        assert(hash_tag_line(front) == hash_tag(tags[0]) + seq![' '] + hash_tag_line(
            rest.drop_last(),
        ));
        assert(hash_tag_line(rest) == hash_tag_line(rest.drop_last()) + seq![' '] + hash_tag(
            tags.last(),
        ));
        assert(hash_tag_line(tags) == hash_tag_line(front) + seq![' '] + hash_tag(tags.last()));
        assert(hash_tag_line(tags) =~= hash_tag(tags[0]) + seq![' '] + hash_tag_line(rest));
    }
}

} // verus!

//!Social medias API module
use vstd::prelude::*;
use crate::config;
use crate::data::{compose, composed, texts, Image, PlatformId, Post};
use crate::error::ApiError;
use crate::fanout::{Branch, BranchView, Fanout, FanoutView};
use crate::gather::{all_ok, first_failure, gather, values};
use crate::gab;
use crate::mastodon;
use crate::minds;
use crate::twitter;

verus! {

/// What a registry holds: at most one client per platform.
pub struct ApiView {
    pub twitter: Option<twitter::Client>,
    pub gab: Option<gab::Client>,
    pub mastodon: Option<mastodon::Client>,
    pub minds: Option<minds::Minds>,
    pub timeout: u64,
}

impl ApiView {
    /// Whether a client is installed for the platform.
    pub open spec fn enabled(self, id: PlatformId) -> bool {
        match id {
            PlatformId::Twitter => self.twitter is Some,
            PlatformId::Gab => self.gab is Some,
            PlatformId::Mastodon => self.mastodon is Some,
            PlatformId::Minds => self.minds is Some,
        }
    }

    /// Whether the client of the platform, if one is installed, can send
    /// requests.
    pub open spec fn authorized(self, id: PlatformId) -> bool {
        match id {
            PlatformId::Minds => self.minds matches Some(client) ==> client.authorized(),
            _ => true,
        }
    }

    /// The registry with the slot of one platform emptied.
    pub open spec fn masked(self, id: PlatformId) -> ApiView {
        match id {
            PlatformId::Twitter => ApiView { twitter: None, ..self },
            PlatformId::Gab => ApiView { gab: None, ..self },
            PlatformId::Mastodon => ApiView { mastodon: None, ..self },
            PlatformId::Minds => ApiView { minds: None, ..self },
        }
    }
}

///API access
pub struct API {
    twitter: Option<twitter::Client>,
    gab: Option<gab::Client>,
    mastodon: Option<mastodon::Client>,
    minds: Option<minds::Minds>,
    timeout: u64,
}

impl View for API {
    type V = ApiView;

    closed spec fn view(&self) -> ApiView {
        ApiView {
            twitter: self.twitter,
            gab: self.gab,
            mastodon: self.mastodon,
            minds: self.minds,
            timeout: self.timeout,
        }
    }
}

/// What configuring a platform makes of its slot, where `held` is what the
/// slot holds and `built` is what setting up a client came to: a slot that
/// holds a client keeps it; into an empty slot goes the client that was set
/// up, and a failure to set one up is handed on with the slot left empty.
pub open spec fn configured<C>(held: Option<C>, built: Result<C, ApiError>) -> (
    Result<(), ApiError>,
    Option<C>,
) {
    match held {
        Some(_) => (Ok(()), held),
        None => match built {
            Ok(client) => (Ok(()), Some(client)),
            Err(error) => (Err(error), None),
        },
    }
}

///Describes how to enable API
pub trait ApiEnabler: Sized {
    ///API's type
    type ApiType;

    /// The platform whose slot this configuration is for.
    spec fn platform() -> PlatformId;

    /// The client in the platform's slot.
    spec fn installed(api: ApiView) -> Option<Self::ApiType>;

    /// The registry with `client` in the platform's slot.
    spec fn install(api: ApiView, client: Option<Self::ApiType>) -> ApiView;

    /// The slot holds what was last put into it, nothing changes when it
    /// is given what it holds, and no other slot is touched.
    proof fn slot_law(api: ApiView, client: Option<Self::ApiType>)
        ensures
            Self::installed(Self::install(api, client)) == client,
            Self::install(api, Self::installed(api)) == api,
            Self::install(api, client).masked(Self::platform()) == api.masked(Self::platform()),
            api.enabled(Self::platform()) == (Self::installed(api) is Some),
    ;

    ///Configures API
    ///
    ///A platform that holds a client keeps it, and `connect` is not asked.
    ///Otherwise `connect` sets a client up from the configuration: the
    ///client is installed, or the failure is handed on and the registry
    ///stays as it was.
    fn configure<F: FnOnce(Self) -> Result<Self::ApiType, ApiError>>(
        api: &mut API,
        config: Self,
        connect: F,
    ) -> (done: Result<(), ApiError>)
        requires
            Self::installed(old(api)@) is None ==> call_requires(connect, (config,)),
        ensures
            Self::installed(old(api)@) is Some ==> done is Ok && final(api)@ == old(api)@,
            Self::installed(old(api)@) is None ==> exists|built: Result<Self::ApiType, ApiError>|
                {
                    &&& #[trigger] call_ensures(connect, (config,), built)
                    &&& done == configured(None, built).0
                    &&& final(api)@ == Self::install(old(api)@, configured(None, built).1)
                },
    ;

    ///Enables API with the client given; clears the slot where none is
    ///given
    fn enable(api: &mut API, new: Option<Self::ApiType>)
        ensures
            final(api)@ == Self::install(old(api)@, new),
    ;

    ///Disables API and hands back the client that was installed
    fn disable(api: &mut API) -> (client: Option<Self::ApiType>)
        ensures
            client == Self::installed(old(api)@),
            final(api)@ == Self::install(old(api)@, None),
    ;

    /// The client in the platform's slot.
    fn client(api: &API) -> (client: Option<&Self::ApiType>)
        ensures
            client == match Self::installed(api@) {
                Some(held) => Some(&held),
                None => None,
            },
    ;
}

impl ApiEnabler for config::Mastodon {
    type ApiType = mastodon::Client;

    open spec fn platform() -> PlatformId {
        PlatformId::Mastodon
    }

    open spec fn installed(api: ApiView) -> Option<mastodon::Client> {
        api.mastodon
    }

    open spec fn install(api: ApiView, client: Option<mastodon::Client>) -> ApiView {
        ApiView { mastodon: client, ..api }
    }

    proof fn slot_law(api: ApiView, client: Option<mastodon::Client>) {
    }

    fn configure<F: FnOnce(Self) -> Result<mastodon::Client, ApiError>>(
        api: &mut API,
        config: Self,
        connect: F,
    ) -> (done: Result<(), ApiError>) {
        if api.mastodon.is_some() {
            return Ok(());
        }
        match connect(config) {
            Ok(client) => {
                api.mastodon = Some(client);
                Ok(())
            },
            Err(error) => Err(error),
        }
    }

    fn enable(api: &mut API, new: Option<mastodon::Client>) {
        api.mastodon = new;
    }

    fn disable(api: &mut API) -> (client: Option<mastodon::Client>) {
        api.mastodon.take()
    }

    fn client(api: &API) -> (client: Option<&mastodon::Client>) {
        api.mastodon.as_ref()
    }
}

impl ApiEnabler for config::Gab {
    type ApiType = gab::Client;

    open spec fn platform() -> PlatformId {
        PlatformId::Gab
    }

    open spec fn installed(api: ApiView) -> Option<gab::Client> {
        api.gab
    }

    open spec fn install(api: ApiView, client: Option<gab::Client>) -> ApiView {
        ApiView { gab: client, ..api }
    }

    proof fn slot_law(api: ApiView, client: Option<gab::Client>) {
    }

    fn configure<F: FnOnce(Self) -> Result<gab::Client, ApiError>>(
        api: &mut API,
        config: Self,
        connect: F,
    ) -> (done: Result<(), ApiError>) {
        if api.gab.is_some() {
            return Ok(());
        }
        match connect(config) {
            Ok(client) => {
                api.gab = Some(client);
                Ok(())
            },
            Err(error) => Err(error),
        }
    }

    fn enable(api: &mut API, new: Option<gab::Client>) {
        api.gab = new;
    }

    fn disable(api: &mut API) -> (client: Option<gab::Client>) {
        api.gab.take()
    }

    fn client(api: &API) -> (client: Option<&gab::Client>) {
        api.gab.as_ref()
    }
}

impl ApiEnabler for config::Twitter {
    type ApiType = twitter::Client;

    open spec fn platform() -> PlatformId {
        PlatformId::Twitter
    }

    open spec fn installed(api: ApiView) -> Option<twitter::Client> {
        api.twitter
    }

    open spec fn install(api: ApiView, client: Option<twitter::Client>) -> ApiView {
        ApiView { twitter: client, ..api }
    }

    proof fn slot_law(api: ApiView, client: Option<twitter::Client>) {
    }

    fn configure<F: FnOnce(Self) -> Result<twitter::Client, ApiError>>(
        api: &mut API,
        config: Self,
        connect: F,
    ) -> (done: Result<(), ApiError>) {
        if api.twitter.is_some() {
            return Ok(());
        }
        match connect(config) {
            Ok(client) => {
                api.twitter = Some(client);
                Ok(())
            },
            Err(error) => Err(error),
        }
    }

    fn enable(api: &mut API, new: Option<twitter::Client>) {
        api.twitter = new;
    }

    fn disable(api: &mut API) -> (client: Option<twitter::Client>) {
        api.twitter.take()
    }

    fn client(api: &API) -> (client: Option<&twitter::Client>) {
        api.twitter.as_ref()
    }
}

impl ApiEnabler for config::Minds {
    type ApiType = minds::Minds;

    open spec fn platform() -> PlatformId {
        PlatformId::Minds
    }

    open spec fn installed(api: ApiView) -> Option<minds::Minds> {
        api.minds
    }

    open spec fn install(api: ApiView, client: Option<minds::Minds>) -> ApiView {
        ApiView { minds: client, ..api }
    }

    proof fn slot_law(api: ApiView, client: Option<minds::Minds>) {
    }

    fn configure<F: FnOnce(Self) -> Result<minds::Minds, ApiError>>(
        api: &mut API,
        config: Self,
        connect: F,
    ) -> (done: Result<(), ApiError>) {
        if api.minds.is_some() {
            return Ok(());
        }
        match connect(config) {
            Ok(client) => {
                api.minds = Some(client);
                Ok(())
            },
            Err(error) => Err(error),
        }
    }

    fn enable(api: &mut API, new: Option<minds::Minds>) {
        api.minds = new;
    }

    fn disable(api: &mut API) -> (client: Option<minds::Minds>) {
        api.minds.take()
    }

    fn client(api: &API) -> (client: Option<&minds::Minds>) {
        api.minds.as_ref()
    }
}

/// The registry after a platform was configured, where `built` is what
/// setting up a client came to.
pub open spec fn after_configure<T: ApiEnabler>(
    api: ApiView,
    built: Result<T::ApiType, ApiError>,
) -> ApiView {
    T::install(api, configured(T::installed(api), built).1)
}

/// The publish call that a post opens on a registry once its images are
/// loaded: the text is put together from the message and the tags, and each
/// platform starts where its slot and the images put it.
pub open spec fn started(api: ApiView, post: Post, images: Seq<Image>) -> FanoutView {
    FanoutView {
        message: composed(post.message@, texts(post.tags@)),
        flags: post.flags,
        images,
        twitter: opening(api, PlatformId::Twitter, images.len() > 0),
        gab: opening(api, PlatformId::Gab, images.len() > 0),
        mastodon: opening(api, PlatformId::Mastodon, images.len() > 0),
        minds: opening(api, PlatformId::Minds, images.len() > 0),
    }
}

/// Whether `sent` is what sending a post comes to when reading its images
/// gave `loaded`, one result per path read and in the order of the paths:
/// the call fails with the path and the cause of the first image that could
/// not be read; where every image of the post was read, it is opened.
pub open spec fn sent_as(
    api: ApiView,
    post: Post,
    loaded: Seq<Result<Image, String>>,
    sent: Result<Fanout, ApiError>,
) -> bool {
    match sent {
        Ok(fanout) => {
            &&& loaded.len() == post.images@.len()
            &&& all_ok(loaded)
            &&& fanout@ == started(api, post, values(loaded))
        },
        Err(error) => exists|i: int|
            #![trigger loaded[i]]
            {
                &&& first_failure(loaded, i)
                &&& i < post.images@.len()
                &&& error == ApiError::CannotLoadImage(post.images@[i], loaded[i]->Err_0)
            },
    }
}

/// Where a platform starts on a registry.
pub open spec fn opening(api: ApiView, id: PlatformId, with_images: bool) -> BranchView {
    BranchView::opening(id, api.enabled(id), api.authorized(id), with_images)
}

impl API {
    ///Creates new API access module by reading configuration data.
    pub fn new(settings: config::Settings) -> (api: API)
        ensures
            api@ == (ApiView {
                twitter: None,
                gab: None,
                mastodon: None,
                minds: None,
                timeout: settings.timeout,
            }),
    {
        API { twitter: None, mastodon: None, gab: None, minds: None, timeout: settings.timeout }
    }

    /// Seconds after which a request is given up.
    pub fn timeout(&self) -> (seconds: u64)
        ensures
            seconds == self@.timeout,
    {
        self.timeout
    }

    ///Configures specified API by providing it configuration
    ///
    ///Does nothing if already enabled. Otherwise `connect` sets the client
    ///up; what it fails with is handed on and nothing is installed.
    pub fn configure<T: ApiEnabler, F: FnOnce(T) -> Result<T::ApiType, ApiError>>(
        &mut self,
        config: T,
        connect: F,
    ) -> (done: Result<(), ApiError>)
        requires
            T::installed(old(self)@) is None ==> call_requires(connect, (config,)),
        ensures
            T::installed(old(self)@) is Some ==> done is Ok && final(self)@ == old(self)@,
            T::installed(old(self)@) is None ==> exists|built: Result<T::ApiType, ApiError>|
                {
                    &&& #[trigger] call_ensures(connect, (config,), built)
                    &&& done == configured(T::installed(old(self)@), built).0
                    &&& final(self)@ == after_configure::<T>(old(self)@, built)
                },
    {
        T::configure(self, config, connect)
    }

    ///Enables specified API by providing it back
    pub fn enable<T: ApiEnabler>(&mut self, api: Option<T::ApiType>)
        ensures
            final(self)@ == T::install(old(self)@, api),
            T::installed(final(self)@) == api,
            final(self)@.masked(T::platform()) == old(self)@.masked(T::platform()),
    {
        proof {
            T::slot_law(self@, api);
        }
        T::enable(self, api)
    }

    ///Disables specified API by taking it
    pub fn disable<T: ApiEnabler>(&mut self) -> (client: Option<T::ApiType>)
        ensures
            client == T::installed(old(self)@),
            final(self)@ == T::install(old(self)@, None),
            T::installed(final(self)@) is None,
            final(self)@.masked(T::platform()) == old(self)@.masked(T::platform()),
    {
        proof {
            T::slot_law(self@, None);
        }
        T::disable(self)
    }

    /// The client that is installed for a platform.
    pub fn client<T: ApiEnabler>(&self) -> (client: Option<&T::ApiType>)
        ensures
            client == match T::installed(self@) {
                Some(held) => Some(&held),
                None => None,
            },
    {
        T::client(self)
    }

    /// Opens a publish call for a post whose images have been read:
    /// `loaded` holds, for the paths of the post and in their order, the
    /// image or why it could not be read. There is one result for each
    /// path, or the results stop short behind one that could not be read.
    ///
    /// Where an image could not be read nothing is started: the call fails
    /// with the first such path and its cause. Otherwise every enabled
    /// platform has its first request pending.
    pub fn dispatch(&self, post: Post, loaded: Vec<Result<Image, String>>) -> (sent: Result<
        Fanout,
        ApiError,
    >)
        requires
            loaded@.len() <= post.images@.len(),
            loaded@.len() < post.images@.len() ==> !all_ok(loaded@),
        ensures
            sent_as(self@, post, loaded@, sent),
    {
        match gather(loaded) {
            Err((i, cause)) => {
                let Post { message: _, tags: _, flags: _, images } = post;
                Err(ApiError::CannotLoadImage(images[i].clone(), cause))
            },
            Ok(images) => Ok(self.begin(post, images)),
        }
    }

    ///Sends Post to enabled APIs
    ///
    ///The images of the post are read with `open`, one after the other and
    ///before anything else is done. The first that cannot be read ends the
    ///call with its path and the cause, and nothing is started. Otherwise
    ///every enabled platform has its first request pending.
    pub fn send<F: Fn(&String) -> Result<Image, String>>(&self, post: Post, open: F) -> (sent:
        Result<Fanout, ApiError>)
        requires
            forall|i: int|
                0 <= i < post.images@.len() ==> call_requires(open, (&#[trigger] post.images@[i],)),
        ensures
            exists|loaded: Seq<Result<Image, String>>|
                {
                    &&& loaded.len() <= post.images@.len()
                    &&& forall|i: int|
                        0 <= i < loaded.len() ==> call_ensures(
                            open,
                            (&post.images@[i],),
                            #[trigger] loaded[i],
                        )
                    &&& #[trigger] sent_as(self@, post, loaded, sent)
                    &&& sent is Err ==> first_failure(loaded, loaded.len() - 1)
                },
    {
        let mut images: Vec<Image> = Vec::new();
        let ghost mut loaded: Seq<Result<Image, String>> = Seq::empty();
        let mut i: usize = 0;
        while i < post.images.len()
            invariant
                i <= post.images@.len(),
                loaded.len() == i,
                images@ == values(loaded),
                all_ok(loaded),
                forall|k: int|
                    0 <= k < post.images@.len() ==> call_requires(
                        open,
                        (&#[trigger] post.images@[k],),
                    ),
                forall|k: int|
                    0 <= k < loaded.len() ==> call_ensures(
                        open,
                        (&post.images@[k],),
                        #[trigger] loaded[k],
                    ),
            decreases post.images@.len() - i,
        {
            let read = open(&post.images[i]);
            proof {
                let ghost before = loaded;
                loaded = loaded.push(read);
                assert forall|k: int| 0 <= k < loaded.len() implies call_ensures(
                    open,
                    (&post.images@[k],),
                    #[trigger] loaded[k],
                ) by {
                    if k < before.len() {
                        assert(loaded[k] == before[k]);
                    }
                }
                assert forall|k: int| 0 <= k < i implies (#[trigger] loaded[k]) is Ok by {
                    assert(before[k] is Ok);
                }
            }
            match read {
                Ok(image) => {
                    images.push(image);
                    proof {
                        assert(images@ =~= values(loaded));
                    }
                },
                Err(cause) => {
                    let Post { message: _, tags: _, flags: _, images: paths } = post;
                    let error = ApiError::CannotLoadImage(paths[i].clone(), cause);
                    proof {
                        assert(first_failure(loaded, i as int));
                        assert(sent_as(self@, post, loaded, Err::<Fanout, ApiError>(error)));
                    }
                    return Err(error);
                },
            }
            i += 1;
        }
        let fanout = self.begin(post, images);
        proof {
            assert(sent_as(self@, post, loaded, Ok::<Fanout, ApiError>(fanout)));
        }
        Ok(fanout)
    }

    /// Opens the publish call of a post with its images.
    fn begin(&self, post: Post, images: Vec<Image>) -> (fanout: Fanout)
        ensures
            fanout@ == started(self@, post, images@),
    {
        let Post { message, tags, flags, images: _ } = post;
        let message = compose(message, &tags);
        let with_images = images.len() > 0;
        let twitter = self.opening(PlatformId::Twitter, with_images);
        let gab = self.opening(PlatformId::Gab, with_images);
        let mastodon = self.opening(PlatformId::Mastodon, with_images);
        let minds = self.opening(PlatformId::Minds, with_images);
        Fanout::start(message, flags, images, twitter, gab, mastodon, minds)
    }

    /// Where a platform starts a publish call.
    pub fn opening(&self, id: PlatformId, with_images: bool) -> (branch: Branch)
        ensures
            branch@ == opening(self@, id, with_images),
    {
        Branch::opening(id, self.is_enabled(id), self.is_authorized(id), with_images)
    }

    /// Whether a client is installed for the platform.
    pub fn is_enabled(&self, id: PlatformId) -> (enabled: bool)
        ensures
            enabled == self@.enabled(id),
    {
        match id {
            PlatformId::Twitter => self.twitter.is_some(),
            PlatformId::Gab => self.gab.is_some(),
            PlatformId::Mastodon => self.mastodon.is_some(),
            PlatformId::Minds => self.minds.is_some(),
        }
    }

    /// Whether the client of the platform, if one is installed, can send
    /// requests.
    pub fn is_authorized(&self, id: PlatformId) -> (authorized: bool)
        ensures
            authorized == self@.authorized(id),
    {
        match id {
            PlatformId::Minds => match &self.minds {
                Some(client) => client.is_started(),
                None => true,
            },
            _ => true,
        }
    }
}

/// A post with an image that cannot be read is not sent: the call fails
/// with the path of the first such image and its cause, whatever the
/// registry holds, and no publish call is opened.
pub proof fn lemma_unreadable_image_aborts(
    api: ApiView,
    post: Post,
    loaded: Seq<Result<Image, String>>,
    sent: Result<Fanout, ApiError>,
    at: int,
)
    requires
        sent_as(api, post, loaded, sent),
        first_failure(loaded, at),
    ensures
        sent == Err::<Fanout, ApiError>(
            ApiError::CannotLoadImage(post.images@[at], loaded[at]->Err_0),
        ),
{
    match sent {
        Ok(_) => {
            assert(loaded[at] is Ok);
        },
        Err(error) => {
            let i = choose|i: int|
                #![trigger loaded[i]]
                first_failure(loaded, i) && i < post.images@.len() && error
                    == ApiError::CannotLoadImage(post.images@[i], loaded[i]->Err_0);
            crate::gather::lemma_first_failure_unique(loaded, i, at);
        },
    }
}

/// A post whose images were all read is sent: the publish call is opened,
/// on the text put together from the message and the tags.
pub proof fn lemma_readable_images_send(
    api: ApiView,
    post: Post,
    loaded: Seq<Result<Image, String>>,
    sent: Result<Fanout, ApiError>,
)
    requires
        sent_as(api, post, loaded, sent),
        all_ok(loaded),
    ensures
        sent is Ok,
        sent->Ok_0@ == started(api, post, values(loaded)),
        sent->Ok_0@.message == composed(post.message@, texts(post.tags@)),
{
    if sent is Err {
        let error = sent->Err_0;
        let i = choose|i: int|
            #![trigger loaded[i]]
            first_failure(loaded, i) && i < post.images@.len() && error
                == ApiError::CannotLoadImage(post.images@[i], loaded[i]->Err_0);
        assert(loaded[i] is Ok);
    }
}

/// A platform that is disabled when a post is sent takes no part in the
/// call, whatever comes in: its branch never starts and its outcome stays
/// absent. A platform that is enabled has an outcome once the call is done,
/// be it the post or a failure.
pub proof fn lemma_disabled_is_absent(
    api: ApiView,
    post: Post,
    images: Seq<Image>,
    events: Seq<crate::fanout::EventView>,
    id: PlatformId,
)
    ensures
        !api.enabled(id) ==> started(api, post, images).run(events).branch(id) is Disabled,
        !api.enabled(id) ==> started(api, post, images).run(events).pending(id) is None,
        !api.enabled(id) ==> crate::result::slot(
            started(api, post, images).run(events).outcomes(),
            id,
        ) is None,
        api.enabled(id) && started(api, post, images).run(events).done() ==> crate::result::slot(
            started(api, post, images).run(events).outcomes(),
            id,
        ) is Some,
{
    let call = started(api, post, images);
    assert(call.branch(id) == opening(api, id, images.len() > 0));
    crate::fanout::lemma_run_resolved_stays(call, events, id);
    crate::fanout::lemma_outcomes_in_order(call.run(events), id);
}

/// Whatever comes in after a post was sent, a platform that is to create
/// the post does so with the text of the call and with as many attachments
/// as are due: none without images, one on a platform that takes one, and
/// otherwise one for each image.
pub proof fn lemma_posts_carry_every_image(
    api: ApiView,
    post: Post,
    images: Seq<Image>,
    events: Seq<crate::fanout::EventView>,
    id: PlatformId,
)
    ensures
        started(api, post, images).run(events).fits(id),
        started(api, post, images).run(events).pending(id) matches Some(
            crate::fanout::ActionView::Post { message, attachments, flags },
        ) ==> {
            &&& message == composed(post.message@, texts(post.tags@))
            &&& flags == post.flags
            &&& attachments.len() == if images.len() == 0 {
                0
            } else if id.single_attachment() {
                1
            } else {
                images.len()
            }
        },
{
    let call = started(api, post, images);
    assert(call.branch(id) == opening(api, id, images.len() > 0));
    assert(call.fits(id));
    crate::fanout::lemma_run_fits(call, events, id);
    crate::fanout::lemma_run_resolved_stays(call, events, id);
}

/// Where a platform starts when a post is sent: with the post itself where
/// there are no images, with the uploads where there are, and at its end
/// where its client cannot send requests.
pub proof fn lemma_first_request(api: ApiView, post: Post, images: Seq<Image>, id: PlatformId)
    requires
        api.enabled(id),
    ensures
        api.authorized(id) && images.len() == 0 ==> started(api, post, images).pending(id) == Some(
            crate::fanout::ActionView::Post {
                message: composed(post.message@, texts(post.tags@)),
                attachments: Seq::empty(),
                flags: post.flags,
            },
        ),
        api.authorized(id) && images.len() > 0 ==> started(api, post, images).pending(id) == Some(
            crate::fanout::ActionView::Upload(images),
        ),
        !api.authorized(id) ==> started(api, post, images).branch(id) == BranchView::Failed(
            ApiError::of(id, crate::error::PlatformError::Unauthorized),
        ),
{
    let call = started(api, post, images);
    assert(call.branch(id) == opening(api, id, images.len() > 0));
}

/// Configuring a platform twice in a row: where the first time installs a
/// client or finds one, the second time succeeds whatever setting up a
/// client would come to, and leaves the registry, and so the installed
/// client, as the first time left it.
pub proof fn lemma_configure_twice<T: ApiEnabler>(
    api: ApiView,
    first: Result<T::ApiType, ApiError>,
    second: Result<T::ApiType, ApiError>,
)
    requires
        configured(T::installed(api), first).0 is Ok,
    ensures
        T::installed(after_configure::<T>(api, first)) is Some,
        T::installed(api) is None ==> T::installed(after_configure::<T>(api, first)) == Some(
            first->Ok_0,
        ),
        configured(T::installed(after_configure::<T>(api, first)), second).0 is Ok,
        after_configure::<T>(after_configure::<T>(api, first), second) == after_configure::<T>(
            api,
            first,
        ),
{
    let once = after_configure::<T>(api, first);
    T::slot_law(api, configured(T::installed(api), first).1);
    T::slot_law(once, T::installed(once));
}

/// A platform whose client could not be set up stays disabled, and the
/// registry is as it was: the platforms that were enabled stay enabled.
pub proof fn lemma_configure_failed<T: ApiEnabler>(api: ApiView, error: ApiError)
    ensures
        T::installed(api) is None ==> configured(T::installed(api), Err::<T::ApiType, ApiError>(error))
            == (Err::<(), ApiError>(error), None::<T::ApiType>),
        after_configure::<T>(api, Err(error)) == api,
{
    T::slot_law(api, T::installed(api));
}

/// Enabling and disabling a platform touch no slot but its own, disabling
/// hands back what enabling put in, and a disabled platform has nothing
/// more to hand back.
pub proof fn lemma_enable_disable<T: ApiEnabler>(api: ApiView, client: Option<T::ApiType>)
    ensures
        T::installed(T::install(api, client)) == client,
        T::installed(T::install(T::install(api, client), None)) is None,
        T::install(api, client).masked(T::platform()) == api.masked(T::platform()),
        T::install(api, client).enabled(T::platform()) == (client is Some),
{
    T::slot_law(api, client);
    T::slot_law(T::install(api, client), None);
    T::slot_law(T::install(api, client), client);
}

} // verus!

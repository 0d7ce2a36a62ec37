//! One publish call in progress: what each platform is waiting for, and
//! what becomes of it when an answer comes in.
use vstd::prelude::*;
use crate::data::{Image, PlatformId, PostFlags, PostId};
use crate::error::{ApiError, PlatformError};
use crate::gather::{failure, gather, values};
use crate::result::{slot, Outcome, PostResult, PostResultInner};

verus! {

/// Where one platform stands within a publish call.
#[derive(Debug, PartialEq, Eq)]
pub enum Branch {
    /// The platform takes no part.
    Disabled,
    /// The images are being uploaded.
    Uploading,
    /// The post is being created, with these attachments.
    Posting(Vec<String>),
    /// The post was created.
    Succeeded(PostId),
    /// The platform failed.
    Failed(ApiError),
}

/// A branch as contracts see it.
pub enum BranchView {
    Disabled,
    Uploading,
    Posting(Seq<String>),
    Succeeded(PostId),
    Failed(ApiError),
}

impl View for Branch {
    type V = BranchView;

    open spec fn view(&self) -> BranchView {
        match *self {
            Branch::Disabled => BranchView::Disabled,
            Branch::Uploading => BranchView::Uploading,
            Branch::Posting(attachments) => BranchView::Posting(attachments@),
            Branch::Succeeded(id) => BranchView::Succeeded(id),
            Branch::Failed(error) => BranchView::Failed(error),
        }
    }
}

impl BranchView {
    /// Whether the branch has come to its end.
    pub open spec fn resolved(self) -> bool {
        self is Disabled || self is Succeeded || self is Failed
    }

    /// What the branch reports once it has come to its end.
    pub open spec fn outcome(self) -> Outcome {
        match self {
            BranchView::Succeeded(id) => Some(Ok(id)),
            BranchView::Failed(error) => Some(Err(error)),
            _ => None,
        }
    }

    /// Where a platform starts: out of the call when it is disabled, failed
    /// when its client cannot send requests, uploading when there are
    /// images, and posting without attachments otherwise.
    pub open spec fn opening(
        id: PlatformId,
        enabled: bool,
        authorized: bool,
        with_images: bool,
    ) -> BranchView {
        if !enabled {
            BranchView::Disabled
        } else if !authorized {
            BranchView::Failed(ApiError::of(id, PlatformError::Unauthorized))
        } else if with_images {
            BranchView::Uploading
        } else {
            BranchView::Posting(Seq::empty())
        }
    }

    /// The branch after the platform's uploads have resolved with
    /// `results`, one per image and in the order of the images. Only a
    /// branch that is uploading takes notice. It fails with the first
    /// failure among the uploads; where all succeeded it goes on to post
    /// with the references it got, a platform that takes one attachment
    /// with the first of them alone, and fails if there is none.
    pub open spec fn uploaded(self, id: PlatformId, results: Seq<Result<String, PlatformError>>) -> BranchView {
        if !(self is Uploading) {
            self
        } else {
            match failure(results) {
                Some(cause) => BranchView::Failed(ApiError::of(id, cause)),
                None => {
                    if !id.single_attachment() {
                        BranchView::Posting(values(results))
                    } else if results.len() == 0 {
                        BranchView::Failed(ApiError::of(id, PlatformError::NoAttachment))
                    } else {
                        BranchView::Posting(values(results).take(1))
                    }
                },
            }
        }
    }

    /// The branch after the platform has answered the post with `result`.
    /// Only a branch that is posting takes notice: it ends with the
    /// identifier of the post, or with the platform's failure.
    pub open spec fn posted(self, id: PlatformId, result: Result<PostId, PlatformError>) -> BranchView {
        if !(self is Posting) {
            self
        } else {
            match result {
                Ok(post) => BranchView::Succeeded(post),
                Err(cause) => BranchView::Failed(ApiError::of(id, cause)),
            }
        }
    }
}

impl Branch {
    /// Where a platform starts.
    pub fn opening(id: PlatformId, enabled: bool, authorized: bool, with_images: bool) -> (branch:
        Branch)
        ensures
            branch@ == BranchView::opening(id, enabled, authorized, with_images),
    {
        if !enabled {
            Branch::Disabled
        } else if !authorized {
            Branch::Failed(ApiError::from_platform(id, PlatformError::Unauthorized))
        } else if with_images {
            Branch::Uploading
        } else {
            Branch::Posting(Vec::new())
        }
    }

    /// The branch after the platform's uploads have resolved.
    pub fn uploaded(self, id: PlatformId, results: Vec<Result<String, PlatformError>>) -> (next:
        Branch)
        ensures
            next@ == self@.uploaded(id, results@),
    {
        match self {
            Branch::Uploading => match gather(results) {
                Err((_, cause)) => Branch::Failed(ApiError::from_platform(id, cause)),
                Ok(mut attachments) => {
                    if !id.is_single_attachment() {
                        Branch::Posting(attachments)
                    } else if attachments.len() == 0 {
                        Branch::Failed(ApiError::from_platform(id, PlatformError::NoAttachment))
                    } else {
                        attachments.truncate(1);
                        Branch::Posting(attachments)
                    }
                },
            },
            other => other,
        }
    }

    /// The branch after the platform has answered the post.
    pub fn posted(self, id: PlatformId, result: Result<PostId, PlatformError>) -> (next: Branch)
        ensures
            next@ == self@.posted(id, result),
    {
        match self {
            Branch::Posting(_) => match result {
                Ok(post) => Branch::Succeeded(post),
                Err(cause) => Branch::Failed(ApiError::from_platform(id, cause)),
            },
            other => other,
        }
    }

    /// Whether the branch has come to its end.
    pub fn is_resolved(&self) -> (resolved: bool)
        ensures
            resolved == self@.resolved(),
    {
        match self {
            Branch::Disabled => true,
            Branch::Succeeded(_) => true,
            Branch::Failed(_) => true,
            _ => false,
        }
    }

    /// What the branch reports once it has come to its end.
    pub fn into_outcome(self) -> (outcome: Outcome)
        ensures
            outcome == self@.outcome(),
    {
        match self {
            Branch::Succeeded(id) => Some(Ok(id)),
            Branch::Failed(error) => Some(Err(error)),
            _ => None,
        }
    }
}

/// What came back from a platform.
#[derive(Debug, PartialEq, Eq)]
pub enum Event {
    /// The uploads of a platform have all resolved: one result per image,
    /// in the order of the images.
    Uploaded(PlatformId, Vec<Result<String, PlatformError>>),
    /// The platform has answered the post.
    Posted(PlatformId, Result<PostId, PlatformError>),
}

/// An event as contracts see it.
pub enum EventView {
    Uploaded(PlatformId, Seq<Result<String, PlatformError>>),
    Posted(PlatformId, Result<PostId, PlatformError>),
}

impl View for Event {
    type V = EventView;

    open spec fn view(&self) -> EventView {
        match *self {
            Event::Uploaded(id, results) => EventView::Uploaded(id, results@),
            Event::Posted(id, result) => EventView::Posted(id, result),
        }
    }
}

impl EventView {
    /// The platform that the event comes from.
    pub open spec fn platform(self) -> PlatformId {
        match self {
            EventView::Uploaded(id, _) => id,
            EventView::Posted(id, _) => id,
        }
    }

    /// What the event makes of the branch of its platform.
    pub open spec fn apply(self, branch: BranchView) -> BranchView {
        match self {
            EventView::Uploaded(id, results) => branch.uploaded(id, results),
            EventView::Posted(id, result) => branch.posted(id, result),
        }
    }
}

impl Event {
    /// The platform that the event comes from.
    pub fn platform(&self) -> (id: PlatformId)
        ensures
            id == self@.platform(),
    {
        match self {
            Event::Uploaded(id, _) => *id,
            Event::Posted(id, _) => *id,
        }
    }
}

/// What a platform is to be asked next.
#[derive(Debug, PartialEq, Eq)]
pub enum Action<'a> {
    /// Upload each of these images.
    Upload(&'a Vec<Image>),
    /// Create the post.
    Post { message: &'a String, attachments: &'a Vec<String>, flags: &'a PostFlags },
}

/// An action as contracts see it.
pub enum ActionView {
    Upload(Seq<Image>),
    Post { message: Seq<char>, attachments: Seq<String>, flags: PostFlags },
}

impl<'a> View for Action<'a> {
    type V = ActionView;

    open spec fn view(&self) -> ActionView {
        match *self {
            Action::Upload(images) => ActionView::Upload(images@),
            Action::Post { message, attachments, flags } => ActionView::Post {
                message: message@,
                attachments: attachments@,
                flags: *flags,
            },
        }
    }
}

/// A publish call in progress.
#[derive(Debug, PartialEq, Eq)]
pub struct Fanout {
    message: String,
    flags: PostFlags,
    images: Vec<Image>,
    twitter: Branch,
    gab: Branch,
    mastodon: Branch,
    minds: Branch,
}

/// A publish call in progress as contracts see it.
pub struct FanoutView {
    /// The text that is published.
    pub message: Seq<char>,
    /// The markers of the post.
    pub flags: PostFlags,
    /// The images that are attached.
    pub images: Seq<Image>,
    pub twitter: BranchView,
    pub gab: BranchView,
    pub mastodon: BranchView,
    pub minds: BranchView,
}

impl View for Fanout {
    type V = FanoutView;

    closed spec fn view(&self) -> FanoutView {
        FanoutView {
            message: self.message@,
            flags: self.flags,
            images: self.images@,
            twitter: self.twitter@,
            gab: self.gab@,
            mastodon: self.mastodon@,
            minds: self.minds@,
        }
    }
}

impl FanoutView {
    /// The branch of a platform.
    pub open spec fn branch(self, id: PlatformId) -> BranchView {
        match id {
            PlatformId::Twitter => self.twitter,
            PlatformId::Gab => self.gab,
            PlatformId::Mastodon => self.mastodon,
            PlatformId::Minds => self.minds,
        }
    }

    /// The call with the branch of one platform replaced.
    pub open spec fn with_branch(self, id: PlatformId, branch: BranchView) -> FanoutView {
        match id {
            PlatformId::Twitter => FanoutView { twitter: branch, ..self },
            PlatformId::Gab => FanoutView { gab: branch, ..self },
            PlatformId::Mastodon => FanoutView { mastodon: branch, ..self },
            PlatformId::Minds => FanoutView { minds: branch, ..self },
        }
    }

    /// Whether the call takes notice of an event: of an answer to a post
    /// always, of uploads where there is one result for each image.
    pub open spec fn takes(self, event: EventView) -> bool {
        match event {
            EventView::Uploaded(_, results) => results.len() == self.images.len(),
            EventView::Posted(_, _) => true,
        }
    }

    /// The call after an event: the branch of the event's platform moves
    /// on, nothing else changes.
    pub open spec fn step(self, event: EventView) -> FanoutView {
        if self.takes(event) {
            self.with_branch(event.platform(), event.apply(self.branch(event.platform())))
        } else {
            self
        }
    }

    /// How many attachments a post of the platform carries: none without
    /// images, one on a platform that takes one, and otherwise one for each
    /// image.
    pub open spec fn attachments_due(self, id: PlatformId) -> nat {
        if self.images.len() == 0 {
            0
        } else if id.single_attachment() {
            1
        } else {
            self.images.len()
        }
    }

    /// Whether the branch of a platform fits the images of the call: it
    /// uploads only where there are images, and posts with as many
    /// attachments as are due.
    pub open spec fn fits(self, id: PlatformId) -> bool {
        match self.branch(id) {
            BranchView::Uploading => self.images.len() > 0,
            BranchView::Posting(attachments) => attachments.len() == self.attachments_due(id),
            _ => true,
        }
    }

    /// The call after a run of events, taken in order.
    pub open spec fn run(self, events: Seq<EventView>) -> FanoutView
        decreases events.len(),
    {
        if events.len() == 0 {
            self
        } else {
            self.run(events.drop_last()).step(events.last())
        }
    }

    /// Whether every branch has come to its end.
    pub open spec fn done(self) -> bool {
        &&& self.twitter.resolved()
        &&& self.gab.resolved()
        &&& self.mastodon.resolved()
        &&& self.minds.resolved()
    }

    /// What the branches report, in the order of the platforms.
    pub open spec fn outcomes(self) -> PostResultInner {
        (
            self.twitter.outcome(),
            self.gab.outcome(),
            self.mastodon.outcome(),
            self.minds.outcome(),
        )
    }

    /// What a platform is to be asked next: to upload the images while its
    /// branch is uploading, to create the post with the text, the
    /// attachments and the markers while it is posting, and nothing
    /// otherwise.
    pub open spec fn pending(self, id: PlatformId) -> Option<ActionView> {
        match self.branch(id) {
            BranchView::Uploading => Some(ActionView::Upload(self.images)),
            BranchView::Posting(attachments) => Some(
                ActionView::Post { message: self.message, attachments, flags: self.flags },
            ),
            _ => None,
        }
    }
}

/// The view of an action that may be absent.
pub open spec fn action_view(action: Option<Action<'_>>) -> Option<ActionView> {
    match action {
        Some(action) => Some(action@),
        None => None,
    }
}

impl Fanout {
    /// A publish call with each platform where it starts.
    pub(crate) fn start(
        message: String,
        flags: PostFlags,
        images: Vec<Image>,
        twitter: Branch,
        gab: Branch,
        mastodon: Branch,
        minds: Branch,
    ) -> (fanout: Fanout)
        ensures
            fanout@ == (FanoutView {
                message: message@,
                flags,
                images: images@,
                twitter: twitter@,
                gab: gab@,
                mastodon: mastodon@,
                minds: minds@,
            }),
    {
        Fanout { message, flags, images, twitter, gab, mastodon, minds }
    }

    /// The text that is published.
    pub fn message(&self) -> (message: &String)
        ensures
            message@ == self@.message,
    {
        &self.message
    }

    /// The images that are attached.
    pub fn images(&self) -> (images: &Vec<Image>)
        ensures
            images@ == self@.images,
    {
        &self.images
    }

    /// The branch of a platform.
    pub fn branch(&self, id: PlatformId) -> (branch: &Branch)
        ensures
            branch@ == self@.branch(id),
    {
        match id {
            PlatformId::Twitter => &self.twitter,
            PlatformId::Gab => &self.gab,
            PlatformId::Mastodon => &self.mastodon,
            PlatformId::Minds => &self.minds,
        }
    }

    /// What a platform is to be asked next.
    pub fn pending(&self, id: PlatformId) -> (action: Option<Action<'_>>)
        ensures
            action_view(action) == self@.pending(id),
    {
        match self.branch(id) {
            Branch::Uploading => Some(Action::Upload(&self.images)),
            Branch::Posting(attachments) => Some(
                Action::Post { message: &self.message, attachments, flags: &self.flags },
            ),
            _ => None,
        }
    }

    /// Takes in what came back from a platform. Only the branch of that
    /// platform can move, and only where the event is what it waits for:
    /// uploads with one result for each image while it uploads, an answer
    /// to the post while it posts. Anything else is left aside.
    pub fn handle(&mut self, event: Event)
        ensures
            final(self)@ == old(self)@.step(event@),
    {
        let id = event.platform();
        let taken = match &event {
            Event::Uploaded(_, results) => results.len() == self.images.len(),
            Event::Posted(_, _) => true,
        };
        if !taken {
            return;
        }
        let mut branch = Branch::Disabled;
        match id {
            PlatformId::Twitter => core::mem::swap(&mut self.twitter, &mut branch),
            PlatformId::Gab => core::mem::swap(&mut self.gab, &mut branch),
            PlatformId::Mastodon => core::mem::swap(&mut self.mastodon, &mut branch),
            PlatformId::Minds => core::mem::swap(&mut self.minds, &mut branch),
        }
        let mut next = match event {
            Event::Uploaded(_, results) => branch.uploaded(id, results),
            Event::Posted(_, result) => branch.posted(id, result),
        };
        match id {
            PlatformId::Twitter => core::mem::swap(&mut self.twitter, &mut next),
            PlatformId::Gab => core::mem::swap(&mut self.gab, &mut next),
            PlatformId::Mastodon => core::mem::swap(&mut self.mastodon, &mut next),
            PlatformId::Minds => core::mem::swap(&mut self.minds, &mut next),
        }
    }

    /// Whether every branch has come to its end.
    pub fn is_done(&self) -> (done: bool)
        ensures
            done == self@.done(),
    {
        self.twitter.is_resolved() && self.gab.is_resolved() && self.mastodon.is_resolved()
            && self.minds.is_resolved()
    }

    /// Gathers the outcomes once every branch has come to its end, in the
    /// order of the platforms; hands the call back while one is still open.
    pub fn finish(self) -> (result: Result<PostResult, Fanout>)
        ensures
            match result {
                Ok(outcomes) => self@.done() && outcomes@ == self@.outcomes(),
                Err(open) => !self@.done() && open == self,
            },
    {
        if !self.is_done() {
            return Err(self);
        }
        let Fanout { message: _, flags: _, images: _, twitter, gab, mastodon, minds } = self;
        Ok(
            PostResult::from_parts(
                (
                    twitter.into_outcome(),
                    gab.into_outcome(),
                    mastodon.into_outcome(),
                    minds.into_outcome(),
                ),
            ),
        )
    }
}

/// An event moves the branch of its own platform and no other: what one
/// platform answers never reaches the branch of another.
pub proof fn lemma_isolation(call: FanoutView, event: EventView, other: PlatformId)
    requires
        other != event.platform(),
    ensures
        call.step(event).branch(other) == call.branch(other),
        call.takes(event) ==> call.step(event).branch(event.platform()) == event.apply(
            call.branch(event.platform()),
        ),
        !call.takes(event) ==> call.step(event) == call,
        call.step(event).message == call.message,
        call.step(event).flags == call.flags,
        call.step(event).images == call.images,
{
}

/// Events of different platforms may come in either order: the call ends up
/// the same.
pub proof fn lemma_events_commute(call: FanoutView, first: EventView, second: EventView)
    requires
        first.platform() != second.platform(),
    ensures
        call.step(first).step(second) == call.step(second).step(first),
{
}

/// A branch that has come to its end stays as it is whatever comes in, so an
/// outcome is set once; and a platform takes no part after an event exactly
/// if it took none before.
pub proof fn lemma_resolved_stays(call: FanoutView, event: EventView, id: PlatformId)
    ensures
        call.branch(id).resolved() ==> call.step(event).branch(id) == call.branch(id),
        call.step(event).branch(id) is Disabled <==> call.branch(id) is Disabled,
{
}

/// What holds of one event holds of a run of them: ended branches stay, and
/// the platforms that take no part are the same before and after.
pub proof fn lemma_run_resolved_stays(call: FanoutView, events: Seq<EventView>, id: PlatformId)
    ensures
        call.branch(id).resolved() ==> call.run(events).branch(id) == call.branch(id),
        call.run(events).branch(id) is Disabled <==> call.branch(id) is Disabled,
        call.run(events).message == call.message,
        call.run(events).flags == call.flags,
        call.run(events).images == call.images,
    decreases events.len(),
{
    if events.len() > 0 {
        lemma_run_resolved_stays(call, events.drop_last(), id);
        lemma_resolved_stays(call.run(events.drop_last()), events.last(), id);
    }
}

/// A run of one event is a step.
pub proof fn lemma_run_one(call: FanoutView, event: EventView)
    ensures
        call.run(seq![event]) == call.step(event),
{
    let nothing = seq![event].drop_last();
    assert(nothing.len() == 0);
    assert(call.run(nothing) == call);
    assert(seq![event].last() == event);
}

/// A run of events can be taken in two parts.
pub proof fn lemma_run_split(call: FanoutView, front: Seq<EventView>, back: Seq<EventView>)
    ensures
        call.run(front + back) == call.run(front).run(back),
    decreases back.len(),
{
    if back.len() == 0 {
        assert(front + back =~= front);
    } else {
        lemma_run_split(call, front, back.drop_last());
        assert((front + back).drop_last() =~= front + back.drop_last());
        assert((front + back).last() == back.last());
    }
}

/// Two neighbouring events of different platforms may change places in a
/// run: the call ends up the same, whichever platform answered first.
pub proof fn lemma_run_swap(
    call: FanoutView,
    front: Seq<EventView>,
    first: EventView,
    second: EventView,
    back: Seq<EventView>,
)
    requires
        first.platform() != second.platform(),
    ensures
        call.run(front + seq![first, second] + back) == call.run(
            front + seq![second, first] + back,
        ),
{
    let one = seq![first, second];
    let other = seq![second, first];
    lemma_run_split(call, front + one, back);
    lemma_run_split(call, front + other, back);
    lemma_run_split(call, front, one);
    lemma_run_split(call, front, other);
    let mid = call.run(front);
    assert(one.drop_last() =~= seq![first]);
    assert(other.drop_last() =~= seq![second]);
    lemma_run_one(mid, first);
    lemma_run_one(mid, second);
    assert(mid.run(one) == mid.step(first).step(second));
    assert(mid.run(other) == mid.step(second).step(first));
    lemma_events_commute(mid, first, second);
}

/// A run of events of other platforms leaves the branch of a platform as it
/// is.
pub proof fn lemma_run_untouched(call: FanoutView, events: Seq<EventView>, id: PlatformId)
    requires
        forall|j: int| 0 <= j < events.len() ==> (#[trigger] events[j]).platform() != id,
    ensures
        call.run(events).branch(id) == call.branch(id),
    decreases events.len(),
{
    if events.len() > 0 {
        let front = events.drop_last();
        assert forall|j: int| 0 <= j < front.len() implies (#[trigger] front[j]).platform()
            != id by {
            assert(front[j] == events[j]);
        }
        lemma_run_untouched(call, front, id);
        lemma_isolation(call.run(front), events.last(), id);
    }
}

/// The first answer to the post of a platform decides its outcome: the
/// identifier where the post was created, the failure where it was not.
/// What the other platforms answer, before or after, and whatever comes in
/// for the platform later, makes no difference to it.
pub proof fn lemma_first_answer_decides(
    call: FanoutView,
    events: Seq<EventView>,
    at: int,
    id: PlatformId,
    result: Result<PostId, PlatformError>,
)
    requires
        call.branch(id) is Posting,
        0 <= at < events.len(),
        events[at] == EventView::Posted(id, result),
        forall|j: int| 0 <= j < at ==> (#[trigger] events[j]).platform() != id,
    ensures
        call.run(events).branch(id).outcome() == Some(
            match result {
                Ok(post) => Ok::<PostId, ApiError>(post),
                Err(cause) => Err::<PostId, ApiError>(ApiError::of(id, cause)),
            },
        ),
        slot(call.run(events).outcomes(), id) == call.run(events).branch(id).outcome(),
{
    let before = events.take(at);
    let after = events.skip(at + 1);
    assert(events =~= before + seq![events[at]] + after);
    lemma_run_split(call, before + seq![events[at]], after);
    lemma_run_split(call, before, seq![events[at]]);
    assert forall|j: int| 0 <= j < before.len() implies (#[trigger] before[j]).platform() != id by {
        assert(before[j] == events[j]);
    }
    lemma_run_untouched(call, before, id);
    let mid = call.run(before);
    lemma_run_one(mid, events[at]);
    let answered = mid.step(events[at]);
    assert(answered.branch(id) == mid.branch(id).posted(id, result));
    lemma_run_resolved_stays(answered, after, id);
}

/// The outcomes keep the order of the platforms: the slot of a platform
/// holds what the branch of that platform reports. Once every branch has
/// come to its end, a slot is empty exactly if its platform took no part;
/// a platform that failed fills its slot with the failure.
pub proof fn lemma_outcomes_in_order(call: FanoutView, id: PlatformId)
    ensures
        slot(call.outcomes(), id) == call.branch(id).outcome(),
        call.done() ==> (slot(call.outcomes(), id) is None <==> call.branch(id) is Disabled),
        call.branch(id) matches BranchView::Failed(error) ==> slot(call.outcomes(), id) == Some(
            Err::<PostId, ApiError>(error),
        ),
        call.branch(id) matches BranchView::Succeeded(post) ==> slot(call.outcomes(), id) == Some(
            Ok::<PostId, ApiError>(post),
        ),
{
}

/// A branch that fits the images of its call still fits them after any
/// event: a platform never posts before its uploads, and when it posts it
/// carries one reference for each image, or the one that it takes.
pub proof fn lemma_step_fits(call: FanoutView, event: EventView, id: PlatformId)
    requires
        call.fits(id),
    ensures
        call.step(event).fits(id),
        call.step(event).attachments_due(id) == call.attachments_due(id),
{
    if call.takes(event) && event.platform() == id {
        match event {
            EventView::Uploaded(_, results) => {
                if call.branch(id) is Uploading {
                    assert(values(results).len() == results.len());
                    assert(values(results).take(1).len() == 1);
                }
            },
            EventView::Posted(_, _) => {},
        }
    }
}

/// What holds of one event holds of a run of them.
pub proof fn lemma_run_fits(call: FanoutView, events: Seq<EventView>, id: PlatformId)
    requires
        call.fits(id),
    ensures
        call.run(events).fits(id),
    decreases events.len(),
{
    if events.len() > 0 {
        lemma_run_fits(call, events.drop_last(), id);
        lemma_step_fits(call.run(events.drop_last()), events.last(), id);
    }
}

/// A platform that takes one attachment posts with the first reference
/// alone when its uploads all succeeded, however many there were; any
/// other platform posts with all of them, in the order of the images.
pub proof fn lemma_attachments(id: PlatformId, results: Seq<Result<String, PlatformError>>)
    requires
        crate::gather::all_ok(results),
        results.len() > 0,
    ensures
        id.single_attachment() ==> BranchView::Uploading.uploaded(id, results)
            == BranchView::Posting(seq![results[0]->Ok_0]),
        !id.single_attachment() ==> BranchView::Uploading.uploaded(id, results)
            == BranchView::Posting(values(results)),
{
    crate::gather::lemma_failure(results);
    assert(values(results).take(1) =~= seq![results[0]->Ok_0]);
}

/// A failure of a platform, in an upload or in the post, ends its branch
/// with that failure under the platform's name: it is an outcome like any
/// other, not a failure of the call.
pub proof fn lemma_failure_is_outcome(
    id: PlatformId,
    results: Seq<Result<String, PlatformError>>,
    at: int,
    attachments: Seq<String>,
    cause: PlatformError,
)
    ensures
        crate::gather::first_failure(results, at) ==> BranchView::Uploading.uploaded(id, results)
            == BranchView::Failed(ApiError::of(id, results[at]->Err_0)),
        BranchView::Posting(attachments).posted(id, Err(cause)) == BranchView::Failed(
            ApiError::of(id, cause),
        ),
        BranchView::Failed(ApiError::of(id, cause)).outcome() == Some(
            Err::<PostId, ApiError>(ApiError::of(id, cause)),
        ),
        ApiError::of(id, cause).origin() == Some(id),
{
    crate::gather::lemma_failure(results);
}

} // verus!

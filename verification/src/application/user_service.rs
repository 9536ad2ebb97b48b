//! The user-creation use case, as the decisions between its outside steps:
//! make the user, have it saved, have its creation published, answer.
use vstd::prelude::*;
use crate::adapters::outbound::kafka_service::{is_user_created_request, user_created_request, PublishRequest};
use crate::application::command::CreateUserCommand;
use crate::clock::{clock_now, rfc3339, rfc3339_text, Timestamp};
use crate::domain::error::DomainError;
use crate::domain::user::User;
use crate::ids::{uuid_text, uuid_variant, uuid_version};
use crate::money::Amount;
use crate::text::trimmed;

verus! {

/// Where a user creation stands.
#[derive(Debug, Clone, Copy, PartialEq, Eq, Structural)]
pub enum CreateUserStage {
    /// The user is to be saved.
    AwaitingSave,
    /// The user is saved; its creation is to be published.
    AwaitingPublish,
    /// The answer is given.
    Finished,
}

/// What the caller is to do next.
pub enum CreateUserAction {
    /// Save the user in the repository, then call `on_saved`.
    Save(User),
    /// Publish the message, then call `on_published`.
    Publish(PublishRequest),
    /// Answer the request.
    Finish(Result<User, DomainError>),
}

/// A user creation in progress: the user it creates and where it stands.
pub struct CreateUserFlow {
    user: User,
    stage: CreateUserStage,
}

/// What saving yields: `next` and `action` follow `flow` once the repository
/// answered `saved`; on success the event is stamped with the text `timestamp`.
pub open spec fn after_save(
    flow: CreateUserFlow,
    saved: Result<User, DomainError>,
    timestamp: Seq<char>,
    next: CreateUserFlow,
    action: CreateUserAction,
) -> bool {
    match saved {
        Err(e) => {
            &&& next.user() == flow.user()
            &&& next.stage() == CreateUserStage::Finished
            &&& action == CreateUserAction::Finish(Err(e))
        },
        Ok(_) => {
            &&& next.user() == flow.user()
            &&& next.stage() == CreateUserStage::AwaitingPublish
            &&& action matches CreateUserAction::Publish(r) && is_user_created_request(
                r,
                flow.user().id,
                timestamp,
            )
        },
    }
}

/// What publishing yields: `next` and `action` follow `flow` once the publication
/// succeeded (`published`) or failed.
pub open spec fn after_publish(
    flow: CreateUserFlow,
    published: bool,
    next: CreateUserFlow,
    action: CreateUserAction,
) -> bool {
    &&& next.user() == flow.user()
    &&& next.stage() == CreateUserStage::Finished
    &&& action == if published {
        CreateUserAction::Finish(Ok(flow.user()))
    } else {
        CreateUserAction::Finish(Err(DomainError::EventPublishError))
    }
}

impl CreateUserFlow {
    /// The user that the creation makes.
    pub closed spec fn user(&self) -> User {
        self.user
    }

    /// Where the creation stands.
    pub closed spec fn stage(&self) -> CreateUserStage {
        self.stage
    }

    /// Starts creating the user that the command names: a new user (trimmed name,
    /// zero balance, version 4 identifier), to be saved first.
    pub fn start(cmd: &CreateUserCommand) -> (r: (CreateUserFlow, CreateUserAction))
        ensures
            r.0.stage() == CreateUserStage::AwaitingSave,
            r.1 == CreateUserAction::Save(r.0.user()),
            r.0.user().name@ == trimmed(cmd.name@),
            r.0.user().balance == Amount::spec_zero(),
            uuid_version(r.0.user().id) == 4,
            uuid_variant(r.0.user().id) == 2,
            r.0.user().wf(),
    {
        let user = User::new(cmd.name.as_str());
        let save = user.clone();
        (CreateUserFlow { user, stage: CreateUserStage::AwaitingSave }, CreateUserAction::Save(save))
    }

    /// Whether the user is to be saved.
    pub fn is_awaiting_save(&self) -> (b: bool)
        ensures
            b == (self.stage() == CreateUserStage::AwaitingSave),
    {
        self.stage == CreateUserStage::AwaitingSave
    }

    /// Whether the user's creation is to be published.
    pub fn is_awaiting_publish(&self) -> (b: bool)
        ensures
            b == (self.stage() == CreateUserStage::AwaitingPublish),
    {
        self.stage == CreateUserStage::AwaitingPublish
    }

    /// Takes the repository's answer to the save, the instant being `now`: an
    /// error ends the creation with that error; a success leads to publishing the
    /// `USER_CREATED` event of the user, stamped with the RFC 3339 text of `now`.
    pub fn on_saved_at(&mut self, saved: Result<User, DomainError>, now: Timestamp) -> (a: CreateUserAction)
        requires
            old(self).stage() == CreateUserStage::AwaitingSave,
            rfc3339_text(now.secs, now.nanos) is Some,
        ensures
            after_save(*old(self), saved, rfc3339_text(now.secs, now.nanos).unwrap(), *final(self), a),
    {
        match saved {
            Err(e) => {
                self.stage = CreateUserStage::Finished;
                CreateUserAction::Finish(Err(e))
            },
            Ok(_) => {
                let stamp = match rfc3339(now) {
                    Some(text) => text,
                    None => {
                        proof {
                            assert(false);
                        }
                        String::new()
                    },
                };
                let request = user_created_request(self.user.id, stamp);
                self.stage = CreateUserStage::AwaitingPublish;
                CreateUserAction::Publish(request)
            },
        }
    }

    /// Takes the repository's answer to the save: an error ends the creation with
    /// that error, without reading the clock; a success leads to publishing the
    /// `USER_CREATED` event of the user, stamped with the clock's current reading
    /// (as `on_saved_at` does with that reading).
    pub fn on_saved(&mut self, saved: Result<User, DomainError>) -> (a: CreateUserAction)
        requires
            old(self).stage() == CreateUserStage::AwaitingSave,
        ensures
            saved is Err ==> after_save(*old(self), saved, Seq::empty(), *final(self), a),
            saved is Ok ==> exists|now: Timestamp|
                #![trigger rfc3339_text(now.secs, now.nanos)]
                now.wf() && rfc3339_text(now.secs, now.nanos) is Some && after_save(
                    *old(self),
                    saved,
                    rfc3339_text(now.secs, now.nanos).unwrap(),
                    *final(self),
                    a,
                ),
    {
        match saved {
            Err(e) => {
                self.stage = CreateUserStage::Finished;
                CreateUserAction::Finish(Err(e))
            },
            Ok(_) => {
                let now = clock_now();
                self.on_saved_at(saved, now)
            },
        }
    }

    /// Takes the outcome of the publication: the creation answers the user it
    /// saved, or `EventPublishError` when the event could not be published.
    pub fn on_published(&mut self, published: bool) -> (a: CreateUserAction)
        requires
            old(self).stage() == CreateUserStage::AwaitingPublish,
        ensures
            after_publish(*old(self), published, *final(self), a),
    {
        self.stage = CreateUserStage::Finished;
        if published {
            CreateUserAction::Finish(Ok(self.user.clone()))
        } else {
            CreateUserAction::Finish(Err(DomainError::EventPublishError))
        }
    }
}

/// A creation that saved the user and published its event answers the very user
/// that it asked to save, and the event it published names that user and is keyed
/// by the user's identifier.
pub proof fn lemma_success_answers_saved_user(
    flow: CreateUserFlow,
    saved: User,
    timestamp: Seq<char>,
    published_flow: CreateUserFlow,
    publish: CreateUserAction,
    finished_flow: CreateUserFlow,
    answer: CreateUserAction,
)
    requires
        after_save(flow, Ok(saved), timestamp, published_flow, publish),
        after_publish(published_flow, true, finished_flow, answer),
    ensures
        answer == CreateUserAction::Finish(Ok(flow.user())),
        publish matches CreateUserAction::Publish(r) && r.key@ == uuid_text(flow.user().id)
            && r.event.user_id == flow.user().id && r.event.timestamp@ == timestamp,
        finished_flow.stage() == CreateUserStage::Finished,
{
}

/// A creation whose save failed answers that failure and publishes nothing.
pub proof fn lemma_failed_save_is_not_published(
    flow: CreateUserFlow,
    error: DomainError,
    timestamp: Seq<char>,
    next: CreateUserFlow,
    action: CreateUserAction,
)
    requires
        after_save(flow, Err(error), timestamp, next, action),
    ensures
        action == CreateUserAction::Finish(Err::<User, DomainError>(error)),
        next.stage() == CreateUserStage::Finished,
{
}

/// A creation whose publication failed answers `EventPublishError`, though the
/// user was saved.
pub proof fn lemma_failed_publish_answers_publish_error(
    flow: CreateUserFlow,
    next: CreateUserFlow,
    action: CreateUserAction,
)
    requires
        after_publish(flow, false, next, action),
    ensures
        action == CreateUserAction::Finish(Err::<User, DomainError>(DomainError::EventPublishError)),
{
}

} // verus!

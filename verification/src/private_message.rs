//! Telling another site about a private message.
//!
//! A private message is announced to its recipient alone: that it was written or
//! changed, with the message itself as a note, or that it was deleted, or that
//! this was undone.

use crate::activity::{
    create_activity, create_json, delete_activity, delete_json, object_json, parse_url, parsed_url,
    read_object, undo_activity, undo_json, update_activity, update_json,
};
use crate::protocol::Turn;
use crate::rows::{DbError, User};
use vstd::prelude::*;

verus! {

/// A private message.
#[derive(Debug, PartialEq, Eq)]
pub struct PrivateMessage {
    pub recipient_id: i32,
    /// The address under which other sites know the message.
    pub ap_id: String,
    pub details: String,
}

impl Clone for PrivateMessage {
    fn clone(&self) -> (res: Self)
        ensures
            res == *self,
    {
        PrivateMessage {
            recipient_id: self.recipient_id,
            ap_id: self.ap_id.clone(),
            details: self.details.clone(),
        }
    }
}

/// What is announced of a private message.
#[derive(Clone, Copy, Debug, PartialEq, Eq)]
pub enum Announcement {
    Create,
    Update,
    Delete,
    UndoDelete,
}

/// The types of activity.
#[derive(Clone, Copy, Debug, PartialEq, Eq)]
pub enum ActivityKind {
    Create,
    Update,
    Delete,
    Undo,
}

impl Announcement {
    /// Whether the announcement shows the message itself, as a note.
    pub open spec fn shows(self) -> bool {
        self == Announcement::Create || self == Announcement::Update
    }

    /// The type of the activity that goes out.
    pub open spec fn spec_kind(self) -> ActivityKind {
        match self {
            Announcement::Create => ActivityKind::Create,
            Announcement::Update => ActivityKind::Update,
            Announcement::Delete => ActivityKind::Delete,
            Announcement::UndoDelete => ActivityKind::Undo,
        }
    }

    fn kind(self) -> (res: ActivityKind)
        ensures
            res == self.spec_kind(),
    {
        match self {
            Announcement::Create => ActivityKind::Create,
            Announcement::Update => ActivityKind::Update,
            Announcement::Delete => ActivityKind::Delete,
            Announcement::UndoDelete => ActivityKind::Undo,
        }
    }

    /// The type of the activity that is built first. What is undone is built
    /// before the undoing.
    pub open spec fn spec_first_kind(self) -> ActivityKind {
        match self {
            Announcement::Create => ActivityKind::Create,
            Announcement::Update => ActivityKind::Update,
            Announcement::Delete => ActivityKind::Delete,
            Announcement::UndoDelete => ActivityKind::Delete,
        }
    }

    fn first_kind(self) -> (res: ActivityKind)
        ensures
            res == self.spec_first_kind(),
    {
        match self {
            Announcement::Create => ActivityKind::Create,
            Announcement::Update => ActivityKind::Update,
            Announcement::Delete => ActivityKind::Delete,
            Announcement::UndoDelete => ActivityKind::Delete,
        }
    }
}

/// A command of an announcement. `T` is the text of an activity: a string, or in
/// contracts a sequence.
#[derive(Debug, PartialEq, Eq)]
pub enum PmCommand<T> {
    /// Write the message as a note.
    ToApub(PrivateMessage),
    ReadUser { user_id: i32 },
    /// Make a fresh address for an activity of this type.
    GenerateActivityId(ActivityKind),
    /// Give the address of a user.
    ActorId(User),
    /// Give the address of a user's inbox.
    InboxUrl(User),
    /// Send an activity of `creator` to one inbox.
    Send { kind: ActivityKind, activity: T, creator: User, inbox: String },
}

/// The reply to a [`PmCommand`]. `E` is the error of the surroundings.
#[derive(Debug, PartialEq, Eq)]
pub enum PmReply<E> {
    /// To `ToApub`: the note as JSON text.
    Note(Result<String, E>),
    /// To `ReadUser`.
    User(Result<User, DbError<E>>),
    /// To `GenerateActivityId`, `ActorId` and `InboxUrl`: an address.
    Url(Result<String, E>),
    /// To `Send`.
    Sent(Result<(), E>),
}

impl<E> PmReply<E> {
    /// The error that the reply brings, if it brings one.
    pub open spec fn error(self) -> Option<E> {
        match self {
            PmReply::Note(Err(e)) => Some(e),
            PmReply::User(Err(e)) => Some(e.spec_inner()),
            PmReply::Url(Err(e)) => Some(e),
            PmReply::Sent(Err(e)) => Some(e),
            _ => None,
        }
    }
}

/// Whether `reply` is a reply to `command`, be it a good one or an error.
pub open spec fn answers<E>(command: PmCommand<Seq<char>>, reply: PmReply<E>) -> bool {
    match command {
        PmCommand::ToApub(_) => reply is Note,
        PmCommand::ReadUser { .. } => reply is User,
        PmCommand::GenerateActivityId(_) => reply is Url,
        PmCommand::ActorId(_) => reply is Url,
        PmCommand::InboxUrl(_) => reply is Url,
        PmCommand::Send { .. } => reply is Sent,
    }
}

/// Whether each of the `replies` is a reply to the command that was pending when
/// it came in. What comes in after the end is a reply to nothing, and does not
/// count.
pub open spec fn all_answer<E>(
    commands: Seq<PmCommand<Seq<char>>>,
    replies: Seq<PmReply<E>>,
) -> bool {
    forall|i: int|
        0 <= i < commands.len() && i < replies.len() ==> answers(
            #[trigger] commands[i],
            replies[i],
        )
}

/// Why a text could not be built.
#[derive(Debug, PartialEq, Eq)]
pub enum BuildError {
    /// The address of the message is none, for this reason.
    InvalidAddress(url::ParseError),
    /// What goes into the activity is no object, or no address.
    InvalidActivity,
}

/// Why an announcement failed.
#[derive(Debug, PartialEq, Eq)]
pub enum PmFailure<E> {
    /// What had to be built could not be built.
    Build(BuildError),
    /// The surroundings failed, and this is their error.
    Other(E),
}

/// The text of an activity or of an object, if there is one.
pub open spec fn activity_text(text: Option<Seq<char>>) -> Result<Seq<char>, BuildError> {
    match text {
        Some(text) => Ok(text),
        None => Err(BuildError::InvalidActivity),
    }
}

/// The address of a message, if it is one.
pub open spec fn address_text(address: Result<Seq<char>, url::ParseError>) -> Result<
    Seq<char>,
    BuildError,
> {
    match address {
        Ok(address) => Ok(address),
        Err(e) => Err(BuildError::InvalidAddress(e)),
    }
}

/// A built text, taken by its view.
pub open spec fn text_model(built: Result<String, BuildError>) -> Result<Seq<char>, BuildError> {
    match built {
        Ok(text) => Ok(text@),
        Err(e) => Err(e),
    }
}

/// What an announcement waits for, and what it has learned so far.
#[derive(Debug, PartialEq, Eq)]
pub enum PmStage<T> {
    /// The message as a note.
    Note,
    /// The recipient. The note is there if the announcement shows the message.
    Recipient { note: Option<String> },
    /// The address of the first activity.
    Id { recipient: User, note: Option<String> },
    /// The address of the recipient.
    To { recipient: User, note: Option<String>, id: String },
    /// The address of the undoing.
    UndoId { recipient: User, object: T },
    /// The address of the recipient, for the undoing.
    UndoTo { recipient: User, object: T, id: String },
    /// The inbox of the recipient.
    Inbox { activity: T },
    /// The end of the sending.
    Sending,
}

/// An announcement that waits for a reply.
#[derive(Debug, PartialEq, Eq)]
pub struct PmState<'a, T> {
    pub announcement: Announcement,
    pub message: &'a PrivateMessage,
    pub creator: &'a User,
    pub stage: PmStage<T>,
}

/// A turn of an announcement.
pub type PmTurn<'a, E> = Turn<PmState<'a, String>, PmCommand<String>, Result<(), PmFailure<E>>>;

/// The model of a [`PmTurn`].
pub type PmTurnModel<'a, E> = Turn<
    PmState<'a, Seq<char>>,
    PmCommand<Seq<char>>,
    Result<(), PmFailure<E>>,
>;

impl<'a> View for PmState<'a, String> {
    type V = PmState<'a, Seq<char>>;

    open spec fn view(&self) -> PmState<'a, Seq<char>> {
        PmState {
            announcement: self.announcement,
            message: self.message,
            creator: self.creator,
            stage: match self.stage {
                PmStage::Note => PmStage::Note,
                PmStage::Recipient { note } => PmStage::Recipient { note },
                PmStage::Id { recipient, note } => PmStage::Id { recipient, note },
                PmStage::To { recipient, note, id } => PmStage::To { recipient, note, id },
                PmStage::UndoId { recipient, object } => PmStage::UndoId {
                    recipient,
                    object: object@,
                },
                PmStage::UndoTo { recipient, object, id } => PmStage::UndoTo {
                    recipient,
                    object: object@,
                    id,
                },
                PmStage::Inbox { activity } => PmStage::Inbox { activity: activity@ },
                PmStage::Sending => PmStage::Sending,
            },
        }
    }
}

/// The turn, with state and command taken by their views.
pub open spec fn pm_model<'a, E>(turn: PmTurn<'a, E>) -> PmTurnModel<'a, E> {
    match turn {
        Turn::Await(state, command) => Turn::Await(
            state@,
            match command {
                PmCommand::ToApub(message) => PmCommand::ToApub(message),
                PmCommand::ReadUser { user_id } => PmCommand::ReadUser { user_id },
                PmCommand::GenerateActivityId(kind) => PmCommand::GenerateActivityId(kind),
                PmCommand::ActorId(user) => PmCommand::ActorId(user),
                PmCommand::InboxUrl(user) => PmCommand::InboxUrl(user),
                PmCommand::Send { kind, activity, creator, inbox } => PmCommand::Send {
                    kind,
                    activity: activity@,
                    creator,
                    inbox,
                },
            },
        ),
        Turn::Finished(result) => Turn::Finished(result),
        Turn::Unexpected => Turn::Unexpected,
    }
}

impl PrivateMessage {
    /// The first turn of an announcement by `creator`: one that shows the message
    /// asks for the note, the others ask for the recipient.
    pub open spec fn begin<'a, E>(
        &'a self,
        announcement: Announcement,
        creator: &'a User,
    ) -> PmTurnModel<'a, E> {
        match announcement {
            Announcement::Create | Announcement::Update => Turn::Await(
                PmState { announcement, message: self, creator, stage: PmStage::Note },
                PmCommand::ToApub(*self),
            ),
            Announcement::Delete | Announcement::UndoDelete => Turn::Await(
                PmState {
                    announcement,
                    message: self,
                    creator,
                    stage: PmStage::Recipient { note: None },
                },
                PmCommand::ReadUser { user_id: self.recipient_id },
            ),
        }
    }

    /// Begins to announce a new message.
    pub fn send_create<'a, E>(&'a self, creator: &'a User) -> (turn: PmTurn<'a, E>)
        ensures
            pm_model(turn) == self.begin::<E>(Announcement::Create, creator),
    {
        Turn::Await(
            PmState {
                announcement: Announcement::Create,
                message: self,
                creator,
                stage: PmStage::Note,
            },
            PmCommand::ToApub(self.clone()),
        )
    }

    /// Begins to announce a changed message.
    pub fn send_update<'a, E>(&'a self, creator: &'a User) -> (turn: PmTurn<'a, E>)
        ensures
            pm_model(turn) == self.begin::<E>(Announcement::Update, creator),
    {
        Turn::Await(
            PmState {
                announcement: Announcement::Update,
                message: self,
                creator,
                stage: PmStage::Note,
            },
            PmCommand::ToApub(self.clone()),
        )
    }

    /// Begins to announce that a message was deleted.
    pub fn send_delete<'a, E>(&'a self, creator: &'a User) -> (turn: PmTurn<'a, E>)
        ensures
            pm_model(turn) == self.begin::<E>(Announcement::Delete, creator),
    {
        Turn::Await(
            PmState {
                announcement: Announcement::Delete,
                message: self,
                creator,
                stage: PmStage::Recipient { note: None },
            },
            PmCommand::ReadUser { user_id: self.recipient_id },
        )
    }

    /// Begins to announce that a message is back after all.
    pub fn send_undo_delete<'a, E>(&'a self, creator: &'a User) -> (turn: PmTurn<'a, E>)
        ensures
            pm_model(turn) == self.begin::<E>(Announcement::UndoDelete, creator),
    {
        Turn::Await(
            PmState {
                announcement: Announcement::UndoDelete,
                message: self,
                creator,
                stage: PmStage::Recipient { note: None },
            },
            PmCommand::ReadUser { user_id: self.recipient_id },
        )
    }
}

impl<'a> PmState<'a, Seq<char>> {
    /// The same announcement, at another stage.
    pub open spec fn at(self, stage: PmStage<Seq<char>>) -> PmState<'a, Seq<char>> {
        PmState {
            announcement: self.announcement,
            message: self.message,
            creator: self.creator,
            stage,
        }
    }

    /// The text that has to be built when `reply` comes in, or why it cannot be
    /// built: once the recipient is known, the object of the activity; once the
    /// address of the recipient is known, the activity.
    pub open spec fn built<E>(self, reply: PmReply<E>) -> Result<Seq<char>, BuildError> {
        let actor = self.creator.actor_id@;
        let ap_id = self.message.ap_id@;
        match (self.stage, reply) {
            (PmStage::Recipient { note: Some(note) }, PmReply::User(Ok(_))) => activity_text(
                object_json(note@),
            ),
            (PmStage::Recipient { note: None }, PmReply::User(Ok(_))) => address_text(
                parsed_url(ap_id),
            ),
            (PmStage::To { note, id, .. }, PmReply::Url(Ok(to))) => match self.announcement {
                Announcement::Create => match note {
                    Some(note) => activity_text(create_json(actor, note@, id@, to@)),
                    None => Err(BuildError::InvalidActivity),
                },
                Announcement::Update => match note {
                    Some(note) => activity_text(update_json(actor, note@, id@, to@)),
                    None => Err(BuildError::InvalidActivity),
                },
                Announcement::Delete | Announcement::UndoDelete => activity_text(
                    delete_json(actor, ap_id, id@, to@),
                ),
            },
            (PmStage::UndoTo { object, id, .. }, PmReply::Url(Ok(to))) => activity_text(
                undo_json(actor, object, id@, to@),
            ),
            _ => Err(BuildError::InvalidActivity),
        }
    }

    /// Whether the text that has to be built when `reply` comes in can be built:
    /// every address that goes into it is one, and so is every object.
    pub open spec fn buildable<E>(self, reply: PmReply<E>) -> bool {
        match (self.stage, reply) {
            (PmStage::Recipient { note: Some(note) }, PmReply::User(Ok(_))) => object_json(
                note@,
            ) is Some,
            (PmStage::Recipient { note: None }, PmReply::User(Ok(_))) => parsed_url(
                self.message.ap_id@,
            ) is Ok,
            (PmStage::To { note, id, .. }, PmReply::Url(Ok(to))) => {
                &&& match self.announcement {
                    Announcement::Create | Announcement::Update => {
                        note matches Some(note) && object_json(note@) is Some
                    },
                    Announcement::Delete | Announcement::UndoDelete => parsed_url(
                        self.message.ap_id@,
                    ) is Ok,
                }
                &&& parsed_url(id@) is Ok
                &&& parsed_url(to@) is Ok
            },
            (PmStage::UndoTo { object, id, .. }, PmReply::Url(Ok(to))) => {
                &&& object_json(object) is Some
                &&& parsed_url(id@) is Ok
                &&& parsed_url(to@) is Ok
            },
            _ => false,
        }
    }

    /// Whether what has been learned so far can be built upon: the object of the
    /// activity, once the recipient is known, is one.
    pub open spec fn sound(self) -> bool {
        match self.stage {
            PmStage::Note => self.announcement.shows(),
            PmStage::Recipient { note } => note is Some == self.announcement.shows(),
            PmStage::Id { note, .. } | PmStage::To { note, .. } => if self.announcement.shows() {
                note matches Some(note) && object_json(note@) is Some
            } else {
                parsed_url(self.message.ap_id@) is Ok
            },
            PmStage::UndoId { object, .. } | PmStage::UndoTo { object, .. } => object_json(
                object,
            ) is Some,
            PmStage::Inbox { .. } | PmStage::Sending => true,
        }
    }

    /// The turn that follows when `reply` comes in and `built` is the text that
    /// had to be built.
    pub open spec fn proceeding<E>(
        self,
        reply: PmReply<E>,
        built: Result<Seq<char>, BuildError>,
    ) -> PmTurnModel<'a, E> {
        match (self.stage, reply) {
            (PmStage::Note, PmReply::Note(Ok(note))) => Turn::Await(
                self.at(PmStage::Recipient { note: Some(note) }),
                PmCommand::ReadUser { user_id: self.message.recipient_id },
            ),
            (PmStage::Note, PmReply::Note(Err(e))) => Turn::Finished(Err(PmFailure::Other(e))),
            (PmStage::Recipient { note }, PmReply::User(Ok(recipient))) => match built {
                Ok(_) => Turn::Await(
                    self.at(PmStage::Id { recipient, note }),
                    PmCommand::GenerateActivityId(self.announcement.spec_first_kind()),
                ),
                Err(e) => Turn::Finished(Err(PmFailure::Build(e))),
            },
            (PmStage::Recipient { .. }, PmReply::User(Err(e))) => Turn::Finished(
                Err(PmFailure::Other(e.spec_inner())),
            ),
            (PmStage::Id { recipient, note }, PmReply::Url(Ok(id))) => Turn::Await(
                self.at(PmStage::To { recipient, note, id }),
                PmCommand::ActorId(recipient),
            ),
            (PmStage::Id { .. }, PmReply::Url(Err(e))) => Turn::Finished(Err(PmFailure::Other(e))),
            (PmStage::To { recipient, .. }, PmReply::Url(Ok(_))) => match built {
                Ok(text) => if self.announcement == Announcement::UndoDelete {
                    Turn::Await(
                        self.at(PmStage::UndoId { recipient, object: text }),
                        PmCommand::GenerateActivityId(ActivityKind::Undo),
                    )
                } else {
                    Turn::Await(
                        self.at(PmStage::Inbox { activity: text }),
                        PmCommand::InboxUrl(recipient),
                    )
                },
                Err(e) => Turn::Finished(Err(PmFailure::Build(e))),
            },
            (PmStage::To { .. }, PmReply::Url(Err(e))) => Turn::Finished(Err(PmFailure::Other(e))),
            (PmStage::UndoId { recipient, object }, PmReply::Url(Ok(id))) => Turn::Await(
                self.at(PmStage::UndoTo { recipient, object, id }),
                PmCommand::ActorId(recipient),
            ),
            (PmStage::UndoId { .. }, PmReply::Url(Err(e))) => Turn::Finished(
                Err(PmFailure::Other(e)),
            ),
            (PmStage::UndoTo { recipient, .. }, PmReply::Url(Ok(_))) => match built {
                Ok(text) => Turn::Await(
                    self.at(PmStage::Inbox { activity: text }),
                    PmCommand::InboxUrl(recipient),
                ),
                Err(e) => Turn::Finished(Err(PmFailure::Build(e))),
            },
            (PmStage::UndoTo { .. }, PmReply::Url(Err(e))) => Turn::Finished(
                Err(PmFailure::Other(e)),
            ),
            (PmStage::Inbox { activity }, PmReply::Url(Ok(inbox))) => Turn::Await(
                self.at(PmStage::Sending),
                PmCommand::Send {
                    kind: self.announcement.spec_kind(),
                    activity,
                    creator: *self.creator,
                    inbox,
                },
            ),
            (PmStage::Inbox { .. }, PmReply::Url(Err(e))) => Turn::Finished(
                Err(PmFailure::Other(e)),
            ),
            (PmStage::Sending, PmReply::Sent(Ok(_))) => Turn::Finished(Ok(())),
            (PmStage::Sending, PmReply::Sent(Err(e))) => Turn::Finished(Err(PmFailure::Other(e))),
            _ => Turn::Unexpected,
        }
    }

    /// The turn that follows when `reply` comes in.
    pub open spec fn next<E>(self, reply: PmReply<E>) -> PmTurnModel<'a, E> {
        self.proceeding(reply, self.built(reply))
    }
}

impl<'a> PmState<'a, String> {
    fn build<E>(&self, reply: &PmReply<E>) -> (res: Result<String, BuildError>)
        ensures
            text_model(res) == self@.built(*reply),
            res is Ok <==> self@.buildable(*reply),
            self.stage is To && self.announcement == Announcement::UndoDelete ==> (res matches Ok(
                text,
            ) ==> object_json(text@) is Some),
    {
        let actor = self.creator.actor_id.as_str();
        let ap_id = self.message.ap_id.as_str();
        let text = match (&self.stage, reply) {
            (PmStage::Recipient { note: Some(note) }, PmReply::User(Ok(_))) => read_object(
                note.as_str(),
            ),
            (PmStage::Recipient { note: None }, PmReply::User(Ok(_))) => {
                return match parse_url(ap_id) {
                    Ok(address) => Ok(address),
                    Err(e) => Err(BuildError::InvalidAddress(e)),
                };
            },
            (PmStage::To { note, id, .. }, PmReply::Url(Ok(to))) => match self.announcement {
                Announcement::Create => match note {
                    Some(note) => create_activity(actor, note.as_str(), id.as_str(), to.as_str()),
                    None => None,
                },
                Announcement::Update => match note {
                    Some(note) => update_activity(actor, note.as_str(), id.as_str(), to.as_str()),
                    None => None,
                },
                Announcement::Delete | Announcement::UndoDelete => delete_activity(
                    actor,
                    ap_id,
                    id.as_str(),
                    to.as_str(),
                ),
            },
            (PmStage::UndoTo { object, id, .. }, PmReply::Url(Ok(to))) => undo_activity(
                actor,
                object.as_str(),
                id.as_str(),
                to.as_str(),
            ),
            _ => None,
        };
        match text {
            Some(text) => Ok(text),
            None => Err(BuildError::InvalidActivity),
        }
    }

    /// Takes the reply to the pending command, and the text that had to be built
    /// for it, or why it could not be built.
    pub fn proceed<E>(self, reply: PmReply<E>, built: Result<String, BuildError>) -> (turn: PmTurn<
        'a,
        E,
    >)
        ensures
            pm_model(turn) == self@.proceeding(reply, text_model(built)),
    {
        let PmState { announcement, message, creator, stage } = self;
        match (stage, reply) {
            (PmStage::Note, PmReply::Note(Ok(note))) => {
                let stage = PmStage::Recipient { note: Some(note) };
                Turn::Await(
                    PmState { announcement, message, creator, stage },
                    PmCommand::ReadUser { user_id: message.recipient_id },
                )
            },
            (PmStage::Note, PmReply::Note(Err(e))) => Turn::Finished(Err(PmFailure::Other(e))),
            (PmStage::Recipient { note }, PmReply::User(Ok(recipient))) => match built {
                Ok(_) => {
                    let stage = PmStage::Id { recipient, note };
                    Turn::Await(
                        PmState { announcement, message, creator, stage },
                        PmCommand::GenerateActivityId(announcement.first_kind()),
                    )
                },
                Err(e) => Turn::Finished(Err(PmFailure::Build(e))),
            },
            (PmStage::Recipient { .. }, PmReply::User(Err(e))) => Turn::Finished(
                Err(PmFailure::Other(e.inner())),
            ),
            (PmStage::Id { recipient, note }, PmReply::Url(Ok(id))) => {
                let command = PmCommand::ActorId(recipient.clone());
                let stage = PmStage::To { recipient, note, id };
                Turn::Await(PmState { announcement, message, creator, stage }, command)
            },
            (PmStage::Id { .. }, PmReply::Url(Err(e))) => Turn::Finished(Err(PmFailure::Other(e))),
            (PmStage::To { recipient, .. }, PmReply::Url(Ok(_))) => match built {
                Ok(text) => {
                    if let Announcement::UndoDelete = announcement {
                        let stage = PmStage::UndoId { recipient, object: text };
                        Turn::Await(
                            PmState { announcement, message, creator, stage },
                            PmCommand::GenerateActivityId(ActivityKind::Undo),
                        )
                    } else {
                        let stage = PmStage::Inbox { activity: text };
                        Turn::Await(
                            PmState { announcement, message, creator, stage },
                            PmCommand::InboxUrl(recipient),
                        )
                    }
                },
                Err(e) => Turn::Finished(Err(PmFailure::Build(e))),
            },
            (PmStage::To { .. }, PmReply::Url(Err(e))) => Turn::Finished(Err(PmFailure::Other(e))),
            (PmStage::UndoId { recipient, object }, PmReply::Url(Ok(id))) => {
                let command = PmCommand::ActorId(recipient.clone());
                let stage = PmStage::UndoTo { recipient, object, id };
                Turn::Await(PmState { announcement, message, creator, stage }, command)
            },
            (PmStage::UndoId { .. }, PmReply::Url(Err(e))) => Turn::Finished(
                Err(PmFailure::Other(e)),
            ),
            (PmStage::UndoTo { recipient, .. }, PmReply::Url(Ok(_))) => match built {
                Ok(text) => {
                    let stage = PmStage::Inbox { activity: text };
                    Turn::Await(
                        PmState { announcement, message, creator, stage },
                        PmCommand::InboxUrl(recipient),
                    )
                },
                Err(e) => Turn::Finished(Err(PmFailure::Build(e))),
            },
            (PmStage::UndoTo { .. }, PmReply::Url(Err(e))) => Turn::Finished(
                Err(PmFailure::Other(e)),
            ),
            (PmStage::Inbox { activity }, PmReply::Url(Ok(inbox))) => Turn::Await(
                PmState { announcement, message, creator, stage: PmStage::Sending },
                PmCommand::Send {
                    kind: announcement.kind(),
                    activity,
                    creator: creator.clone(),
                    inbox,
                },
            ),
            (PmStage::Inbox { .. }, PmReply::Url(Err(e))) => Turn::Finished(
                Err(PmFailure::Other(e)),
            ),
            (PmStage::Sending, PmReply::Sent(Ok(_))) => Turn::Finished(Ok(())),
            (PmStage::Sending, PmReply::Sent(Err(e))) => Turn::Finished(Err(PmFailure::Other(e))),
            _ => Turn::Unexpected,
        }
    }

    /// Takes the reply to the pending command.
    pub fn resume<E>(self, reply: PmReply<E>) -> (turn: PmTurn<'a, E>)
        ensures
            pm_model(turn) == self@.next(reply),
            self@.built(reply) is Ok <==> self@.buildable(reply),
            self@.sound() ==> (pm_model(turn) matches Turn::Await(state, _) ==> state.sound()),
    {
        let built = self.build(&reply);
        self.proceed(reply, built)
    }
}

/// Where an announcement stands that began with the turn `first` and was then
/// handed `replies`, one by one. What comes in after the end changes nothing.
pub open spec fn after<'a, E>(first: PmTurnModel<'a, E>, replies: Seq<PmReply<E>>) -> PmTurnModel<
    'a,
    E,
>
    decreases replies.len(),
{
    if replies.len() == 0 {
        first
    } else {
        match after(first, replies.drop_last()) {
            Turn::Await(state, _) => state.next(replies.last()),
            turn => turn,
        }
    }
}

/// The commands of an announcement that began with the turn `first` and was then
/// handed `replies`, in the order in which they were given.
pub open spec fn issued<'a, E>(first: PmTurnModel<'a, E>, replies: Seq<PmReply<E>>) -> Seq<
    PmCommand<Seq<char>>,
>
    decreases replies.len(),
{
    let before = if replies.len() == 0 {
        Seq::empty()
    } else {
        issued(first, replies.drop_last())
    };
    match after(first, replies) {
        Turn::Await(_, command) => before.push(command),
        _ => before,
    }
}

proof fn lemma_last_reply<E>()
    ensures
        forall|replies: Seq<PmReply<E>>, reply: PmReply<E>|
            (#[trigger] replies.push(reply)).drop_last() == replies,
{
    assert forall|replies: Seq<PmReply<E>>, reply: PmReply<E>|
        (#[trigger] replies.push(reply)).drop_last() == replies by {
        assert(replies.push(reply).drop_last() =~= replies);
    }
}

impl<'a> PmState<'a, Seq<char>> {
    /// After every step the announcement takes every reply to its command.
    pub proof fn takes_every_reply<E>(self, reply: PmReply<E>, answer: PmReply<E>)
        ensures
            self.next(reply) matches Turn::Await(state, command) ==> (answers(command, answer)
                ==> !(state.next(answer) is Unexpected)),
    {
    }

    /// At every stage an error ends the announcement, and what it hands on as an
    /// error is the error that came in.
    pub proof fn errors_end_it<E>(self, reply: PmReply<E>)
        ensures
            reply.error() is Some ==> !(self.next(reply) is Await),
            self.next(reply) matches Turn::Finished(result) ==> {
                &&& reply.error() is Some ==> result is Err
                &&& result matches Err(PmFailure::Other(e)) ==> reply.error() == Some(e)
            },
    {
    }

    /// Once the recipient is known and the object of the activity is one, an
    /// activity can be built exactly if its two addresses are addresses.
    pub proof fn addresses_suffice<E>(self, to: String)
        ensures
            self.sound() ==> match self.stage {
                PmStage::To { id, .. } | PmStage::UndoTo { id, .. } => {
                    self.buildable(PmReply::<E>::Url(Ok(to))) <==> parsed_url(id@) is Ok
                        && parsed_url(to@) is Ok
                },
                _ => true,
            },
    {
    }

    /// An announcement goes to one inbox: after it has been sent nothing follows.
    pub proof fn sending_is_last<E>(self, reply: PmReply<E>)
        ensures
            self.stage is Sending ==> !(self.next(reply) is Await),
    {
    }
}

/// Whether an activity is sent by the last of these commands alone, if by any.
pub open spec fn only_last_sends(commands: Seq<PmCommand<Seq<char>>>) -> bool {
    forall|i: int| 0 <= i < commands.len() - 1 ==> !(#[trigger] commands[i] is Send)
}

/// Who is known under which number, and at which addresses.
pub struct AddressBook {
    pub users: spec_fn(i32) -> User,
    pub actor_ids: spec_fn(User) -> String,
    pub inboxes: spec_fn(User) -> String,
}

impl AddressBook {
    /// Whether `reply` is what the book says to `command`. On fresh addresses, on
    /// notes and on the sending it says nothing.
    pub open spec fn says<E>(self, command: PmCommand<Seq<char>>, reply: PmReply<E>) -> bool {
        match command {
            PmCommand::ReadUser { user_id } => reply == PmReply::<E>::User(
                Ok((self.users)(user_id)),
            ),
            PmCommand::ActorId(user) => reply == PmReply::<E>::Url(Ok((self.actor_ids)(user))),
            PmCommand::InboxUrl(user) => reply == PmReply::<E>::Url(Ok((self.inboxes)(user))),
            _ => true,
        }
    }

    /// Whether each of the `commands` is answered from the book.
    pub open spec fn answers<E>(
        self,
        commands: Seq<PmCommand<Seq<char>>>,
        replies: Seq<PmReply<E>>,
    ) -> bool {
        &&& commands.len() == replies.len()
        &&& forall|i: int|
            0 <= i < commands.len() ==> self.says(#[trigger] commands[i], replies[i])
    }
}

impl PrivateMessage {
    /// What leads to the sending of `activity` to `inbox`: a new or a changed
    /// message goes out as a note, to the address of its recipient.
    pub open spec fn shown<E>(
        self,
        announcement: Announcement,
        creator: User,
        replies: Seq<PmReply<E>>,
        activity: Seq<char>,
        inbox: String,
    ) -> bool {
        &&& replies.len() == 5
        &&& replies[0] matches PmReply::Note(Ok(note))
        &&& replies[1] matches PmReply::User(Ok(_))
        &&& replies[2] matches PmReply::Url(Ok(id))
        &&& replies[3] matches PmReply::Url(Ok(to))
        &&& replies[4] == PmReply::<E>::Url(Ok(inbox))
        &&& if announcement == Announcement::Create {
            create_json(creator.actor_id@, note@, id@, to@) == Some(activity)
        } else {
            update_json(creator.actor_id@, note@, id@, to@) == Some(activity)
        }
    }

    /// What leads to the sending of `activity` to `inbox`: of a deleted message
    /// the address goes out, to the address of its recipient.
    pub open spec fn deleted<E>(
        self,
        creator: User,
        replies: Seq<PmReply<E>>,
        activity: Seq<char>,
        inbox: String,
    ) -> bool {
        &&& replies.len() == 4
        &&& replies[0] matches PmReply::User(Ok(_))
        &&& replies[1] matches PmReply::Url(Ok(id))
        &&& replies[2] matches PmReply::Url(Ok(to))
        &&& replies[3] == PmReply::<E>::Url(Ok(inbox))
        &&& delete_json(creator.actor_id@, self.ap_id@, id@, to@) == Some(activity)
    }

    /// What leads to the sending of `activity` to `inbox`: what is undone is a
    /// deletion by the same actor of the same message.
    pub open spec fn restored<E>(
        self,
        creator: User,
        replies: Seq<PmReply<E>>,
        activity: Seq<char>,
        inbox: String,
    ) -> bool {
        let actor = creator.actor_id@;
        &&& replies.len() == 6
        &&& replies[0] matches PmReply::User(Ok(_))
        &&& replies[1] matches PmReply::Url(Ok(delete_id))
        &&& replies[2] matches PmReply::Url(Ok(delete_to))
        &&& replies[3] matches PmReply::Url(Ok(id))
        &&& replies[4] matches PmReply::Url(Ok(to))
        &&& replies[5] == PmReply::<E>::Url(Ok(inbox))
        &&& delete_json(actor, self.ap_id@, delete_id@, delete_to@) matches Some(object)
        &&& undo_json(actor, object, id@, to@) == Some(activity)
    }

    /// The replies that lead to the stage of `state`.
    spec fn reached<'a, E>(
        &'a self,
        announcement: Announcement,
        creator: &'a User,
        state: PmState<'a, Seq<char>>,
        replies: Seq<PmReply<E>>,
    ) -> bool {
        let actor = creator.actor_id@;
        let shows = announcement.shows();
        let n: int = if shows {
            1
        } else {
            0
        };
        &&& state.announcement == announcement
        &&& state.message == self
        &&& state.creator == creator
        &&& match state.stage {
            PmStage::Note => shows && replies.len() == 0,
            PmStage::Recipient { note } => {
                &&& replies.len() == n
                &&& note is Some == shows
                &&& shows ==> replies[0] == PmReply::<E>::Note(Ok(note->0))
            },
            PmStage::Id { recipient, note } => {
                &&& replies.len() == n + 1
                &&& note is Some == shows
                &&& shows ==> replies[0] == PmReply::<E>::Note(Ok(note->0))
                &&& replies[n] == PmReply::<E>::User(Ok(recipient))
            },
            PmStage::To { recipient, note, id } => {
                &&& replies.len() == n + 2
                &&& note is Some == shows
                &&& shows ==> replies[0] == PmReply::<E>::Note(Ok(note->0))
                &&& replies[n] == PmReply::<E>::User(Ok(recipient))
                &&& replies[n + 1] == PmReply::<E>::Url(Ok(id))
            },
            PmStage::UndoId { recipient, object } => {
                &&& announcement == Announcement::UndoDelete
                &&& replies.len() == 3
                &&& replies[0] == PmReply::<E>::User(Ok(recipient))
                &&& replies[1] matches PmReply::Url(Ok(id))
                &&& replies[2] matches PmReply::Url(Ok(to))
                &&& delete_json(actor, self.ap_id@, id@, to@) == Some(object)
            },
            PmStage::UndoTo { recipient, object, id } => {
                &&& announcement == Announcement::UndoDelete
                &&& replies.len() == 4
                &&& replies[0] == PmReply::<E>::User(Ok(recipient))
                &&& replies[1] matches PmReply::Url(Ok(delete_id))
                &&& replies[2] matches PmReply::Url(Ok(delete_to))
                &&& delete_json(actor, self.ap_id@, delete_id@, delete_to@) == Some(object)
                &&& replies[3] == PmReply::<E>::Url(Ok(id))
            },
            PmStage::Inbox { activity } => {
                &&& replies.len() <= 5
                &&& forall|inbox: String|
                    #![trigger replies.push(PmReply::<E>::Url(Ok(inbox)))]
                    self.sent(
                        announcement,
                        *creator,
                        replies.push(PmReply::<E>::Url(Ok(inbox))),
                        activity,
                        inbox,
                    )
            },
            PmStage::Sending => replies.len() <= 6,
        }
    }

    /// What leads to the sending of `activity` to `inbox`.
    pub open spec fn sent<E>(
        self,
        announcement: Announcement,
        creator: User,
        replies: Seq<PmReply<E>>,
        activity: Seq<char>,
        inbox: String,
    ) -> bool {
        match announcement {
            Announcement::Create | Announcement::Update => self.shown(
                announcement,
                creator,
                replies,
                activity,
                inbox,
            ),
            Announcement::Delete => self.deleted(creator, replies, activity, inbox),
            Announcement::UndoDelete => self.restored(creator, replies, activity, inbox),
        }
    }

    proof fn lemma_reached<'a, E>(
        &'a self,
        announcement: Announcement,
        creator: &'a User,
        replies: Seq<PmReply<E>>,
    )
        ensures
            after(self.begin(announcement, creator), replies) matches Turn::Await(state, _)
                ==> self.reached(announcement, creator, state, replies),
        decreases replies.len(),
    {
        if replies.len() > 0 {
            let before = replies.drop_last();
            self.lemma_reached(announcement, creator, before);
            if let PmReply::Url(Ok(inbox)) = replies.last() {
                assert(before.push(PmReply::<E>::Url(Ok(inbox))) =~= replies);
            }
        }
    }

    /// What goes out is the announced activity of this message, by its creator.
    pub proof fn what_is_sent<'a, E>(
        &'a self,
        announcement: Announcement,
        creator: &'a User,
        replies: Seq<PmReply<E>>,
    )
        ensures
            after(self.begin(announcement, creator), replies) matches Turn::Await(
                _,
                PmCommand::Send { kind, activity, creator: sender, inbox },
            ) ==> {
                &&& kind == announcement.spec_kind()
                &&& sender == *creator
                &&& self.sent(announcement, *creator, replies, activity, inbox)
            },
    {
        if replies.len() > 0 {
            let before = replies.drop_last();
            self.lemma_reached(announcement, creator, before);
            if let PmReply::Url(Ok(inbox)) = replies.last() {
                assert(before.push(PmReply::<E>::Url(Ok(inbox))) =~= replies);
            }
        }
    }

    /// An announcement ends within a fixed number of replies.
    pub proof fn ends<'a, E>(
        &'a self,
        announcement: Announcement,
        creator: &'a User,
        replies: Seq<PmReply<E>>,
    )
        ensures
            replies.len() >= 7 ==> !(after(self.begin(announcement, creator), replies) is Await),
    {
        self.lemma_reached(announcement, creator, replies);
    }

    proof fn lemma_goes_on<'a, E>(
        &'a self,
        announcement: Announcement,
        creator: &'a User,
        replies: Seq<PmReply<E>>,
    )
        ensures
            ({
                let first = self.begin::<E>(announcement, creator);
                all_answer(issued(first, replies), replies) ==> !(after(
                    first,
                    replies,
                ) is Unexpected)
            }),
        decreases replies.len(),
    {
        let first = self.begin::<E>(announcement, creator);
        let commands = issued(first, replies);
        if replies.len() > 0 && all_answer(commands, replies) {
            let before = replies.drop_last();
            let earlier = issued(first, before);
            assert(forall|i: int| 0 <= i < earlier.len() ==> earlier[i] == commands[i]);
            assert forall|i: int| 0 <= i < earlier.len() && i < before.len() implies answers(
                #[trigger] earlier[i],
                before[i],
            ) by {
                assert(answers(commands[i], replies[i]));
            }
            self.lemma_goes_on(announcement, creator, before);
            self.lemma_run(announcement, creator, before);
            if let Turn::Await(_, _) = after(first, before) {
                assert(answers(commands[before.len() as int], replies.last()));
                if before.len() > 0 {
                    if let Turn::Await(state, _) = after(first, before.drop_last()) {
                        state.takes_every_reply(before.last(), replies.last());
                    }
                }
            }
        }
    }

    /// An announcement whose replies all answer its commands never gives up: it
    /// finishes within a fixed number of replies, and an error that comes in makes
    /// it finish with a failure.
    pub proof fn finishes<'a, E>(
        &'a self,
        announcement: Announcement,
        creator: &'a User,
        replies: Seq<PmReply<E>>,
    )
        ensures
            ({
                let first = self.begin::<E>(announcement, creator);
                all_answer(issued(first, replies), replies) ==> {
                    &&& !(after(first, replies) is Unexpected)
                    &&& replies.len() >= 7 ==> after(first, replies) is Finished
                    &&& replies.len() > 0 && replies.last().error() is Some && after(
                        first,
                        replies.drop_last(),
                    ) is Await ==> (after(first, replies) matches Turn::Finished(Err(_)))
                }
            }),
    {
        let first = self.begin::<E>(announcement, creator);
        self.lemma_goes_on(announcement, creator, replies);
        self.ends(announcement, creator, replies);
        if replies.len() > 0 {
            if let Turn::Await(state, _) = after(first, replies.drop_last()) {
                state.errors_end_it(replies.last());
            }
        }
    }

    /// A new or a changed message that meets no error is sent to the inbox of its
    /// recipient: these are the commands, in this order.
    pub proof fn shows_message<'a, E>(
        &'a self,
        announcement: Announcement,
        creator: &'a User,
        note: String,
        recipient: User,
        id: String,
        to: String,
        activity: Seq<char>,
        inbox: String,
    )
        requires
            announcement.shows(),
        ensures
            ({
                let first = self.begin::<E>(announcement, creator);
                let replies = seq![
                    PmReply::Note(Ok(note)),
                    PmReply::User(Ok(recipient)),
                    PmReply::Url(Ok(id)),
                    PmReply::Url(Ok(to)),
                    PmReply::Url(Ok(inbox)),
                    PmReply::Sent(Ok(())),
                ];
                ({
                    &&& object_json(note@) is Some
                    &&& announcement == Announcement::Create ==> create_json(
                        creator.actor_id@,
                        note@,
                        id@,
                        to@,
                    ) == Some(activity)
                    &&& announcement == Announcement::Update ==> update_json(
                        creator.actor_id@,
                        note@,
                        id@,
                        to@,
                    ) == Some(activity)
                }) ==> {
                    &&& issued(first, replies) == seq![
                        PmCommand::ToApub(*self),
                        PmCommand::ReadUser { user_id: self.recipient_id },
                        PmCommand::GenerateActivityId(announcement.spec_kind()),
                        PmCommand::ActorId(recipient),
                        PmCommand::InboxUrl(recipient),
                        PmCommand::Send {
                            kind: announcement.spec_kind(),
                            activity,
                            creator: *creator,
                            inbox,
                        },
                    ]
                    &&& after(first, replies) matches Turn::Finished(result)
                    &&& result is Ok
                }
            }),
    {
        lemma_last_reply::<E>();
        reveal_with_fuel(after, 7);
        reveal_with_fuel(issued, 7);
    }

    /// The deletion of a message, if it meets no error, is sent to the inbox of its
    /// recipient: these are the commands, in this order.
    pub proof fn tells_of_deletion<'a, E>(
        &'a self,
        creator: &'a User,
        recipient: User,
        id: String,
        to: String,
        activity: Seq<char>,
        inbox: String,
    )
        ensures
            ({
                let first = self.begin::<E>(Announcement::Delete, creator);
                let replies = seq![
                    PmReply::User(Ok(recipient)),
                    PmReply::Url(Ok(id)),
                    PmReply::Url(Ok(to)),
                    PmReply::Url(Ok(inbox)),
                    PmReply::Sent(Ok(())),
                ];
                ({
                    &&& parsed_url(self.ap_id@) is Ok
                    &&& delete_json(creator.actor_id@, self.ap_id@, id@, to@) == Some(activity)
                }) ==> {
                    &&& issued(first, replies) == seq![
                        PmCommand::ReadUser { user_id: self.recipient_id },
                        PmCommand::GenerateActivityId(ActivityKind::Delete),
                        PmCommand::ActorId(recipient),
                        PmCommand::InboxUrl(recipient),
                        PmCommand::Send {
                            kind: ActivityKind::Delete,
                            activity,
                            creator: *creator,
                            inbox,
                        },
                    ]
                    &&& after(first, replies) matches Turn::Finished(result)
                    &&& result is Ok
                }
            }),
    {
        lemma_last_reply::<E>();
        reveal_with_fuel(after, 6);
        reveal_with_fuel(issued, 6);
    }

    /// The return of a deleted message, if it meets no error, is sent to the inbox of
    /// its recipient: these are the commands, in this order.
    pub proof fn tells_of_restoration<'a, E>(
        &'a self,
        creator: &'a User,
        recipient: User,
        delete_id: String,
        delete_to: String,
        object: Seq<char>,
        id: String,
        to: String,
        activity: Seq<char>,
        inbox: String,
    )
        ensures
            ({
                let first = self.begin::<E>(Announcement::UndoDelete, creator);
                let replies = seq![
                    PmReply::User(Ok(recipient)),
                    PmReply::Url(Ok(delete_id)),
                    PmReply::Url(Ok(delete_to)),
                    PmReply::Url(Ok(id)),
                    PmReply::Url(Ok(to)),
                    PmReply::Url(Ok(inbox)),
                    PmReply::Sent(Ok(())),
                ];
                ({
                    &&& parsed_url(self.ap_id@) is Ok
                    &&& delete_json(
                        creator.actor_id@,
                        self.ap_id@,
                        delete_id@,
                        delete_to@,
                    ) == Some(object)
                    &&& undo_json(creator.actor_id@, object, id@, to@) == Some(activity)
                }) ==> {
                    &&& issued(first, replies) == seq![
                        PmCommand::ReadUser { user_id: self.recipient_id },
                        PmCommand::GenerateActivityId(ActivityKind::Delete),
                        PmCommand::ActorId(recipient),
                        PmCommand::GenerateActivityId(ActivityKind::Undo),
                        PmCommand::ActorId(recipient),
                        PmCommand::InboxUrl(recipient),
                        PmCommand::Send {
                            kind: ActivityKind::Undo,
                            activity,
                            creator: *creator,
                            inbox,
                        },
                    ]
                    &&& after(first, replies) matches Turn::Finished(result)
                    &&& result is Ok
                }
            }),
    {
        lemma_last_reply::<E>();
        reveal_with_fuel(after, 8);
        reveal_with_fuel(issued, 8);
    }

    /// A message whose address is none is neither deleted nor restored: the reason
    /// why it is none is handed on.
    pub proof fn invalid_addresses_are_told<'a, E>(
        &'a self,
        announcement: Announcement,
        creator: &'a User,
        recipient: User,
        reason: url::ParseError,
    )
        requires
            !announcement.shows(),
        ensures
            parsed_url(self.ap_id@) == Err::<Seq<char>, url::ParseError>(reason) ==> after(
                self.begin::<E>(announcement, creator),
                seq![PmReply::User(Ok(recipient))],
            ) == Turn::<
                PmState<'a, Seq<char>>,
                PmCommand<Seq<char>>,
                Result<(), PmFailure<E>>,
            >::Finished(Err(PmFailure::Build(BuildError::InvalidAddress(reason)))),
    {
        lemma_last_reply::<E>();
        reveal_with_fuel(after, 2);
    }

    proof fn lemma_run<'a, E>(
        &'a self,
        announcement: Announcement,
        creator: &'a User,
        replies: Seq<PmReply<E>>,
    )
        ensures
            ({
                let first = self.begin::<E>(announcement, creator);
                let commands = issued(first, replies);
                &&& only_last_sends(commands)
                &&& match after(first, replies) {
                    Turn::Await(state, command) => {
                        &&& commands.len() == replies.len() + 1
                        &&& commands.last() == command
                        &&& command is Send <==> state.stage is Sending
                    },
                    _ => {
                        &&& commands.len() <= replies.len()
                        &&& commands.len() == replies.len() ==> {
                            &&& after(first, replies.drop_last()) is Await
                            &&& commands == issued(first, replies.drop_last())
                        }
                    },
                }
            }),
        decreases replies.len(),
    {
        if replies.len() > 0 {
            self.lemma_run(announcement, creator, replies.drop_last());
        }
    }

    /// An announcement sends one activity at most, and nothing after it.
    pub proof fn one_sending<'a, E>(
        &'a self,
        announcement: Announcement,
        creator: &'a User,
        replies: Seq<PmReply<E>>,
    )
        ensures
            only_last_sends(issued(self.begin::<E>(announcement, creator), replies)),
    {
        self.lemma_run(announcement, creator, replies);
    }

    proof fn lemma_deleted<'a, E>(
        &'a self,
        creator: &'a User,
        book: AddressBook,
        replies: Seq<PmReply<E>>,
    )
        ensures
            ({
                let first = self.begin::<E>(Announcement::Delete, creator);
                let commands = issued(first, replies);
                let recipient = (book.users)(self.recipient_id);
                let to = (book.actor_ids)(recipient);
                let inbox = (book.inboxes)(recipient);
                ({
                    &&& after(first, replies) matches Turn::Finished(Ok(_))
                    &&& book.answers(commands, replies)
                }) ==> {
                    &&& commands.len() == 5
                    &&& commands[1] == PmCommand::<Seq<char>>::GenerateActivityId(
                        ActivityKind::Delete,
                    )
                    &&& replies[1] matches PmReply::Url(Ok(id))
                    &&& delete_json(creator.actor_id@, self.ap_id@, id@, to@) matches Some(activity)
                    &&& commands[4] == PmCommand::Send {
                        kind: ActivityKind::Delete,
                        activity,
                        creator: *creator,
                        inbox,
                    }
                }
            }),
    {
        let first = self.begin::<E>(Announcement::Delete, creator);
        let commands = issued(first, replies);
        let ended = after(first, replies);
        if (ended matches Turn::Finished(Ok(_))) && book.answers(commands, replies) {
            let before = replies.drop_last();
            self.lemma_run(Announcement::Delete, creator, replies);
            self.lemma_run(Announcement::Delete, creator, before);
            self.what_is_sent(Announcement::Delete, creator, before);
            assert(before =~= seq![replies[0], replies[1], replies[2], replies[3]]);
            assert(commands == issued(first, seq![replies[0], replies[1], replies[2], replies[3]]));
            lemma_last_reply::<E>();
            reveal_with_fuel(after, 5);
            reveal_with_fuel(issued, 5);
            assert(book.says(commands[0], replies[0]));
            assert(book.says(commands[2], replies[2]));
            assert(book.says(commands[3], replies[3]));
        }
    }

    proof fn lemma_restored<'a, E>(
        &'a self,
        creator: &'a User,
        book: AddressBook,
        replies: Seq<PmReply<E>>,
    )
        ensures
            ({
                let first = self.begin::<E>(Announcement::UndoDelete, creator);
                let commands = issued(first, replies);
                let actor = creator.actor_id@;
                let recipient = (book.users)(self.recipient_id);
                let to = (book.actor_ids)(recipient);
                let inbox = (book.inboxes)(recipient);
                ({
                    &&& after(first, replies) matches Turn::Finished(Ok(_))
                    &&& book.answers(commands, replies)
                }) ==> {
                    &&& commands.len() == 7
                    &&& commands[1] == PmCommand::<Seq<char>>::GenerateActivityId(
                        ActivityKind::Delete,
                    )
                    &&& commands[3] == PmCommand::<Seq<char>>::GenerateActivityId(
                        ActivityKind::Undo,
                    )
                    &&& replies[1] matches PmReply::Url(Ok(delete_id))
                    &&& replies[3] matches PmReply::Url(Ok(id))
                    &&& delete_json(actor, self.ap_id@, delete_id@, to@) matches Some(object)
                    &&& undo_json(actor, object, id@, to@) matches Some(activity)
                    &&& commands[6] == PmCommand::Send {
                        kind: ActivityKind::Undo,
                        activity,
                        creator: *creator,
                        inbox,
                    }
                }
            }),
    {
        let first = self.begin::<E>(Announcement::UndoDelete, creator);
        let commands = issued(first, replies);
        let ended = after(first, replies);
        if (ended matches Turn::Finished(Ok(_))) && book.answers(commands, replies) {
            let before = replies.drop_last();
            self.lemma_run(Announcement::UndoDelete, creator, replies);
            self.lemma_run(Announcement::UndoDelete, creator, before);
            self.what_is_sent(Announcement::UndoDelete, creator, before);
            let unrolled = seq![
                replies[0],
                replies[1],
                replies[2],
                replies[3],
                replies[4],
                replies[5],
            ];
            assert(before =~= unrolled);
            assert(commands == issued(first, unrolled));
            lemma_last_reply::<E>();
            reveal_with_fuel(after, 7);
            reveal_with_fuel(issued, 7);
            assert(book.says(commands[0], replies[0]));
            assert(book.says(commands[2], replies[2]));
            assert(book.says(commands[4], replies[4]));
            assert(book.says(commands[5], replies[5]));
        }
    }

    /// What is undone is the deletion that was sent. A message that was deleted and
    /// then restored, with both announcements going well and the recipient at the
    /// same addresses: each announcement sends one activity, by the creator, to the
    /// address of the recipient and into the same inbox. The second one is an
    /// `Undo`, and its object is the first one but for the address that was made
    /// for it afresh.
    pub proof fn restoration_undoes_deletion<'a, E>(
        &'a self,
        creator: &'a User,
        book: AddressBook,
        deleting: Seq<PmReply<E>>,
        restoring: Seq<PmReply<E>>,
    )
        ensures
            ({
                let delete = self.begin::<E>(Announcement::Delete, creator);
                let restore = self.begin::<E>(Announcement::UndoDelete, creator);
                let delete_commands = issued(delete, deleting);
                let restore_commands = issued(restore, restoring);
                let actor = creator.actor_id@;
                let recipient = (book.users)(self.recipient_id);
                let to = (book.actor_ids)(recipient);
                let inbox = (book.inboxes)(recipient);
                ({
                    &&& after(delete, deleting) matches Turn::Finished(Ok(_))
                    &&& after(restore, restoring) matches Turn::Finished(Ok(_))
                    &&& book.answers(delete_commands, deleting)
                    &&& book.answers(restore_commands, restoring)
                }) ==> {
                    &&& delete_commands[1] == PmCommand::<Seq<char>>::GenerateActivityId(
                        ActivityKind::Delete,
                    )
                    &&& restore_commands[1] == PmCommand::<Seq<char>>::GenerateActivityId(
                        ActivityKind::Delete,
                    )
                    &&& restore_commands[3] == PmCommand::<Seq<char>>::GenerateActivityId(
                        ActivityKind::Undo,
                    )
                    &&& deleting[1] matches PmReply::Url(Ok(id))
                    &&& restoring[1] matches PmReply::Url(Ok(object_id))
                    &&& restoring[3] matches PmReply::Url(Ok(undo_id))
                    &&& delete_json(actor, self.ap_id@, id@, to@) matches Some(deletion)
                    &&& delete_json(actor, self.ap_id@, object_id@, to@) matches Some(object)
                    &&& undo_json(actor, object, undo_id@, to@) matches Some(undoing)
                    &&& object_id@ == id@ ==> object == deletion
                    &&& only_last_sends(delete_commands)
                    &&& delete_commands.last() == PmCommand::Send {
                        kind: ActivityKind::Delete,
                        activity: deletion,
                        creator: *creator,
                        inbox,
                    }
                    &&& only_last_sends(restore_commands)
                    &&& restore_commands.last() == PmCommand::Send {
                        kind: ActivityKind::Undo,
                        activity: undoing,
                        creator: *creator,
                        inbox,
                    }
                }
            }),
    {
        self.lemma_deleted(creator, book, deleting);
        self.lemma_restored(creator, book, restoring);
        self.one_sending(Announcement::Delete, creator, deleting);
        self.one_sending(Announcement::UndoDelete, creator, restoring);
    }
}

} // verus!

//! How a request talks to its surroundings.
//!
//! A request is a machine that holds a state. In each turn it either waits for
//! the reply to one command, or has finished. [`after`] says where a request
//! stands once a sequence of replies has come in; the laws of the single
//! requests are stated over it.

use crate::rows::{
    Comment, CommentForm, CommentLikeForm, CommentQuery, CommentSavedForm, CommentView,
    ConnectionId, DbError, Failure, ListingType, MentionData, ModRemoveCommentForm, Post, Site,
    SortType, User,
};
use vstd::prelude::*;

verus! {

/// What a comment announces to other sites.
#[derive(Clone, Copy, Debug, PartialEq, Eq)]
pub enum CommentActivity {
    Create,
    Update,
    Delete,
    UndoDelete,
    Remove,
    UndoRemove,
    Like,
    Dislike,
    UndoLike,
}

/// What an address of this site can lead to.
#[derive(Clone, Copy, Debug, PartialEq, Eq)]
pub enum EndpointType {
    Comment,
}

/// What a request may have done for it.
#[derive(Debug, PartialEq, Eq)]
pub enum Action {
    /// Find the user who holds this token.
    Authenticate { auth: String },
    /// Find the user who holds this token, if there is a token.
    AuthenticateOptional(Option<String>),
    /// Clean a text of slurs.
    RemoveSlurs { content: String },
    /// Find the mentions in a text.
    ScrapeMentions { content: String },
    /// Find the post of a comment.
    GetPost { post_id: i32 },
    /// Make sure that the user is not banned from the community.
    CheckCommunityBan { user_id: i32, community_id: i32 },
    /// Make sure that the user moderates the community or the site.
    CheckModOrAdmin { user_id: i32, community_id: i32 },
    /// Recognise the name of a listing type.
    ParseListingType { type_: String },
    /// Recognise the name of a sort order.
    ParseSortType { sort: String },
    InsertComment(CommentForm),
    /// Make the address of what has this number.
    MakeApubEndpoint { endpoint_type: EndpointType, id: i32 },
    /// Give a comment its address.
    UpdateApId { comment_id: i32, ap_id: String },
    UpdateContent { comment_id: i32, content: String },
    UpdateDeleted { comment_id: i32, deleted: bool },
    UpdateRemoved { comment_id: i32, removed: bool },
    UpdateRead { comment_id: i32, read: bool },
    ReadComment { comment_id: i32 },
    /// Read a comment as `my_user_id`, or as nobody, sees it.
    ReadCommentView { comment_id: i32, my_user_id: Option<i32> },
    ReadPost { post_id: i32 },
    ReadUser { user_id: i32 },
    ReadSite,
    Like(CommentLikeForm),
    RemoveLike { user_id: i32, comment_id: i32 },
    Save(CommentSavedForm),
    Unsave(CommentSavedForm),
    RecordRemoval(ModRemoveCommentForm),
    ListComments(CommentQuery),
    /// Announce to other sites what `user` did to `comment`.
    Federate { activity: CommentActivity, comment: Comment, user: User },
}

/// A command of a request. `M` is a list of mentions: a vector, or in contracts
/// a sequence.
#[derive(Debug, PartialEq, Eq)]
pub enum Command<M> {
    Run(Action),
    /// Notify those whom a comment concerns: see [`crate::notify`].
    SendLocalNotifs { mentions: M, comment: Comment, user: User, post: Post, do_send_email: bool },
}

/// The commands of a request, in the order in which they were given.
pub type Commands = Seq<Command<Seq<MentionData>>>;

/// The command to run `action`.
pub open spec fn run(action: Action) -> Command<Seq<MentionData>> {
    Command::Run(action)
}

impl<M> Command<M> {
    /// Whether the command stores something, or sends something to somebody.
    /// The others only look.
    pub open spec fn changes(self) -> bool {
        match self {
            Command::Run(action) => match action {
                Action::InsertComment(_) => true,
                Action::UpdateApId { .. } => true,
                Action::UpdateContent { .. } => true,
                Action::UpdateDeleted { .. } => true,
                Action::UpdateRemoved { .. } => true,
                Action::UpdateRead { .. } => true,
                Action::Like(_) => true,
                Action::RemoveLike { .. } => true,
                Action::Save(_) => true,
                Action::Unsave(_) => true,
                Action::RecordRemoval(_) => true,
                Action::Federate { .. } => true,
                _ => false,
            },
            Command::SendLocalNotifs { .. } => true,
        }
    }
}

impl View for Command<Vec<MentionData>> {
    type V = Command<Seq<MentionData>>;

    open spec fn view(&self) -> Command<Seq<MentionData>> {
        match *self {
            Command::Run(action) => Command::Run(action),
            Command::SendLocalNotifs { mentions, comment, user, post, do_send_email } =>
                Command::SendLocalNotifs {
                    mentions: mentions@,
                    comment,
                    user,
                    post,
                    do_send_email,
                },
        }
    }
}

/// The reply to a command. `E` is the error of the surroundings.
#[derive(Debug, PartialEq, Eq)]
pub enum Reply<E> {
    /// To `Authenticate`.
    User(Result<User, E>),
    /// To `AuthenticateOptional`.
    OptionalUser(Result<Option<User>, E>),
    /// To `RemoveSlurs`.
    Text(String),
    /// To `MakeApubEndpoint`.
    Address(String),
    /// To `ScrapeMentions`.
    Mentions(Vec<MentionData>),
    /// To `GetPost`.
    Post(Result<Post, E>),
    /// To `CheckCommunityBan`, `CheckModOrAdmin` and `Federate`.
    Checked(Result<(), E>),
    /// To `ParseListingType`.
    ListingType(Result<ListingType, E>),
    /// To `ParseSortType`.
    SortType(Result<SortType, E>),
    /// To `InsertComment`, to every update of a comment, and to `ReadComment`.
    Comment(Result<Comment, DbError<E>>),
    /// To `ReadCommentView`.
    CommentView(Result<CommentView, DbError<E>>),
    /// To `ReadPost`.
    StoredPost(Result<Post, DbError<E>>),
    /// To `ReadUser`.
    StoredUser(Result<User, DbError<E>>),
    /// To `ReadSite`.
    Site(Result<Site, DbError<E>>),
    /// To `Like`, `RemoveLike`, `Save`, `Unsave` and `RecordRemoval`.
    Stored(Result<(), DbError<E>>),
    /// To `ListComments`.
    CommentViews(Result<Vec<CommentView>, DbError<E>>),
    /// To `SendLocalNotifs`: the users who were notified.
    Recipients(Result<Vec<i32>, E>),
}

impl<E> Reply<E> {
    /// The error that the reply brings, if it brings one.
    pub open spec fn error(self) -> Option<E> {
        match self {
            Reply::User(Err(e)) => Some(e),
            Reply::OptionalUser(Err(e)) => Some(e),
            Reply::Post(Err(e)) => Some(e),
            Reply::Checked(Err(e)) => Some(e),
            Reply::ListingType(Err(e)) => Some(e),
            Reply::SortType(Err(e)) => Some(e),
            Reply::Comment(Err(e)) => Some(e.spec_inner()),
            Reply::CommentView(Err(e)) => Some(e.spec_inner()),
            Reply::StoredPost(Err(e)) => Some(e.spec_inner()),
            Reply::StoredUser(Err(e)) => Some(e.spec_inner()),
            Reply::Site(Err(e)) => Some(e.spec_inner()),
            Reply::Stored(Err(e)) => Some(e.spec_inner()),
            Reply::CommentViews(Err(e)) => Some(e.spec_inner()),
            Reply::Recipients(Err(e)) => Some(e),
            _ => None,
        }
    }
}

/// Whether `reply` is a reply to `command`, be it a good one or an error.
pub open spec fn answers<E>(command: Command<Seq<MentionData>>, reply: Reply<E>) -> bool {
    match command {
        Command::Run(action) => match action {
            Action::Authenticate { .. } => reply is User,
            Action::AuthenticateOptional(_) => reply is OptionalUser,
            Action::RemoveSlurs { .. } => reply is Text,
            Action::ScrapeMentions { .. } => reply is Mentions,
            Action::GetPost { .. } => reply is Post,
            Action::CheckCommunityBan { .. } => reply is Checked,
            Action::CheckModOrAdmin { .. } => reply is Checked,
            Action::ParseListingType { .. } => reply is ListingType,
            Action::ParseSortType { .. } => reply is SortType,
            Action::InsertComment(_) => reply is Comment,
            Action::MakeApubEndpoint { .. } => reply is Address,
            Action::UpdateApId { .. } => reply is Comment,
            Action::UpdateContent { .. } => reply is Comment,
            Action::UpdateDeleted { .. } => reply is Comment,
            Action::UpdateRemoved { .. } => reply is Comment,
            Action::UpdateRead { .. } => reply is Comment,
            Action::ReadComment { .. } => reply is Comment,
            Action::ReadCommentView { .. } => reply is CommentView,
            Action::ReadPost { .. } => reply is StoredPost,
            Action::ReadUser { .. } => reply is StoredUser,
            Action::ReadSite => reply is Site,
            Action::Like(_) => reply is Stored,
            Action::RemoveLike { .. } => reply is Stored,
            Action::Save(_) => reply is Stored,
            Action::Unsave(_) => reply is Stored,
            Action::RecordRemoval(_) => reply is Stored,
            Action::ListComments(_) => reply is CommentViews,
            Action::Federate { .. } => reply is Checked,
        },
        Command::SendLocalNotifs { .. } => reply is Recipients,
    }
}

/// Whether each of the `replies` is a reply to the command that was pending when
/// it came in. What comes in after the end is a reply to nothing, and does not
/// count.
pub open spec fn all_answer<E>(commands: Commands, replies: Seq<Reply<E>>) -> bool {
    forall|i: int|
        0 <= i < commands.len() && i < replies.len() ==> answers(
            #[trigger] commands[i],
            replies[i],
        )
}

/// What a client asked for.
#[derive(Clone, Copy, Debug, PartialEq, Eq)]
pub enum UserOperation {
    CreateComment,
    EditComment,
    DeleteComment,
    RemoveComment,
    CreateCommentLike,
}

/// What the chat server is told once a request has succeeded. `C` is a comment
/// response, or in contracts its view.
#[derive(Debug, PartialEq, Eq)]
pub enum ChatMessage<C> {
    SendComment { op: UserOperation, comment: C, websocket_id: Option<ConnectionId> },
    JoinCommunityRoom { community_id: i32, id: ConnectionId },
}

/// The answer to a request about one comment.
#[derive(Debug, PartialEq, Eq)]
pub struct CommentResponse {
    pub comment: CommentView,
    pub recipient_ids: Vec<i32>,
    pub form_id: Option<String>,
}

/// The view of a [`CommentResponse`].
#[verifier::ext_equal]
pub struct CommentResponseModel {
    pub comment: CommentView,
    pub recipient_ids: Seq<i32>,
    pub form_id: Option<String>,
}

impl CommentResponseModel {
    /// The same answer, without the users who were notified.
    pub open spec fn stripped(self) -> CommentResponseModel {
        CommentResponseModel { recipient_ids: Seq::empty(), ..self }
    }
}

impl View for CommentResponse {
    type V = CommentResponseModel;

    open spec fn view(&self) -> CommentResponseModel {
        CommentResponseModel {
            comment: self.comment,
            recipient_ids: self.recipient_ids@,
            form_id: self.form_id,
        }
    }
}

impl Clone for CommentResponse {
    fn clone(&self) -> (res: Self)
        ensures
            res@ == self@,
    {
        let recipient_ids = self.recipient_ids.clone();
        assert(recipient_ids@ =~= self.recipient_ids@);
        CommentResponse {
            comment: self.comment.clone(),
            recipient_ids,
            form_id: self.form_id.clone(),
        }
    }
}

/// How a request ended: the message for the chat server, and the answer.
#[derive(Debug, PartialEq, Eq)]
pub struct Outcome<C, R, E> {
    pub message: Option<ChatMessage<C>>,
    pub result: Result<R, Failure<E>>,
}

impl<R: View, E> View for Outcome<CommentResponse, R, E> {
    type V = Outcome<CommentResponseModel, R::V, E>;

    open spec fn view(&self) -> Outcome<CommentResponseModel, R::V, E> {
        Outcome {
            message: match self.message {
                Some(ChatMessage::SendComment { op, comment, websocket_id }) => Some(
                    ChatMessage::SendComment { op, comment: comment@, websocket_id },
                ),
                Some(ChatMessage::JoinCommunityRoom { community_id, id }) => Some(
                    ChatMessage::JoinCommunityRoom { community_id, id },
                ),
                None => None,
            },
            result: match self.result {
                Ok(response) => Ok(response@),
                Err(failure) => Err(failure),
            },
        }
    }
}

/// One turn of a machine: it waits, in state `S`, for the reply to a command
/// `C`; or it has finished with `T`; or it was handed something that is no
/// reply to its command, and gives up.
#[derive(Debug, PartialEq, Eq)]
pub enum Turn<S, C, T> {
    Await(S, C),
    Finished(T),
    Unexpected,
}

impl<S, C: View, T: View> Turn<S, C, T> {
    /// The turn, with command and outcome taken by their views.
    pub open spec fn model(self) -> Turn<S, C::V, T::V> {
        match self {
            Turn::Await(state, command) => Turn::Await(state, command@),
            Turn::Finished(outcome) => Turn::Finished(outcome@),
            Turn::Unexpected => Turn::Unexpected,
        }
    }
}

/// A turn of a request about comments that answers with `R`.
pub type CommentTurn<S, R, E> = Turn<S, Command<Vec<MentionData>>, Outcome<CommentResponse, R, E>>;

/// The model of a [`CommentTurn`]; `R` is the view of its answer.
pub type CommentTurnModel<S, R, E> = Turn<
    S,
    Command<Seq<MentionData>>,
    Outcome<CommentResponseModel, R, E>,
>;

/// How errors are treated in a turn that `reply` led to: an error ends the
/// request, a request that fails tells the chat server nothing, and what it
/// hands on as an error is the error that came in.
pub open spec fn errors_are_final<S, R, E>(
    reply: Reply<E>,
    turn: CommentTurnModel<S, R, E>,
) -> bool {
    &&& reply.error() is Some ==> !(turn is Await)
    &&& turn matches Turn::Finished(outcome) ==> {
        &&& reply.error() is Some ==> outcome.result is Err
        &&& outcome.result is Err ==> outcome.message is None
        &&& outcome.result matches Err(Failure::Other(e)) ==> reply.error() == Some(e)
    }
}

/// How a request about one comment answers: the client never learns who was
/// notified, since each of them hears of it from the chat server. The chat server
/// gets the same answer with the recipients in it, if the request is one that it
/// is told of, under the name `op`.
pub open spec fn recipients_are_stripped<S, E>(
    op: Option<UserOperation>,
    websocket_id: Option<ConnectionId>,
    turn: CommentTurnModel<S, CommentResponseModel, E>,
) -> bool {
    turn matches Turn::Finished(outcome) ==> match outcome.result {
        Ok(response) => {
            &&& response.recipient_ids.len() == 0
            &&& match (op, outcome.message) {
                (
                    Some(op),
                    Some(ChatMessage::SendComment { op: name, comment, websocket_id: id }),
                ) => {
                    &&& name == op
                    &&& id == websocket_id
                    &&& comment.stripped() == response
                },
                (None, None) => true,
                _ => false,
            }
        },
        Err(_) => outcome.message is None,
    }
}

/// The turn in which `action` is asked for.
pub open spec fn asking<S, R, E>(state: S, action: Action) -> CommentTurnModel<S, R, E> {
    Turn::Await(state, run(action))
}

/// The turn in which a request fails. The chat server hears nothing of it.
pub open spec fn failing<S, R, E>(failure: Failure<E>) -> CommentTurnModel<S, R, E> {
    Turn::Finished(Outcome { message: None, result: Err(failure) })
}

/// The turn in which a request answers without a word to the chat server.
pub open spec fn answering<S, R, E>(response: R) -> CommentTurnModel<S, R, E> {
    Turn::Finished(Outcome { message: None, result: Ok(response) })
}

/// The turn in which a request about one comment answers: the chat server gets
/// the whole answer, the client gets it without the users who were notified, so
/// that nobody hears of the comment twice.
pub open spec fn broadcasting<S, E>(
    op: UserOperation,
    websocket_id: Option<ConnectionId>,
    response: CommentResponseModel,
) -> CommentTurnModel<S, CommentResponseModel, E> {
    Turn::Finished(
        Outcome {
            message: Some(ChatMessage::SendComment { op, comment: response, websocket_id }),
            result: Ok(response.stripped()),
        },
    )
}

pub(crate) fn ask<S, R: View, E>(state: S, action: Action) -> (turn: CommentTurn<S, R, E>)
    ensures
        turn.model() == asking::<S, R::V, E>(state, action),
{
    Turn::Await(state, Command::Run(action))
}

pub(crate) fn fail<S, R: View, E>(failure: Failure<E>) -> (turn: CommentTurn<S, R, E>)
    ensures
        turn.model() == failing::<S, R::V, E>(failure),
{
    Turn::Finished(Outcome { message: None, result: Err(failure) })
}

pub(crate) fn answer<S, E>(comment: CommentView) -> (turn: CommentTurn<S, CommentResponse, E>)
    ensures
        turn.model() == answering::<S, CommentResponseModel, E>(
            CommentResponseModel { comment, recipient_ids: Seq::empty(), form_id: None },
        ),
{
    let res = CommentResponse { comment, recipient_ids: Vec::new(), form_id: None };
    assert(res@.recipient_ids =~= Seq::<i32>::empty());
    Turn::Finished(Outcome { message: None, result: Ok(res) })
}

pub(crate) fn broadcast<S, E>(
    op: UserOperation,
    websocket_id: Option<ConnectionId>,
    response: CommentResponse,
) -> (turn: CommentTurn<S, CommentResponse, E>)
    ensures
        turn.model() == broadcasting::<S, E>(op, websocket_id, response@),
{
    let mut res = response;
    let comment = res.clone();
    res.recipient_ids = Vec::new();
    assert(res@ =~= response@.stripped());
    Turn::Finished(
        Outcome {
            message: Some(ChatMessage::SendComment { op, comment, websocket_id }),
            result: Ok(res),
        },
    )
}

/// A request about comments that waits for a reply.
pub trait Handler<E>: Sized {
    /// What the request answers with.
    type Response: View;

    /// The turn that follows when `reply` comes in.
    spec fn next(self, reply: Reply<E>) -> CommentTurnModel<
        Self,
        <Self::Response as View>::V,
        E,
    >;

    /// Takes the reply to the pending command.
    fn resume(self, reply: Reply<E>) -> (turn: CommentTurn<Self, Self::Response, E>)
        ensures
            turn.model() == self.next(reply),
    ;
}

/// Where a request stands that began with the turn `first` and was then handed
/// `replies`, one by one. What comes in after the end changes nothing.
pub open spec fn after<E, H: Handler<E>>(
    first: CommentTurnModel<H, <H::Response as View>::V, E>,
    replies: Seq<Reply<E>>,
) -> CommentTurnModel<H, <H::Response as View>::V, E>
    decreases replies.len(),
{
    if replies.len() == 0 {
        first
    } else {
        match after(first, replies.drop_last()) {
            Turn::Await(state, _) => state.next(replies.last()),
            turn => turn,
        }
    }
}

/// The commands of a request that began with the turn `first` and was then
/// handed `replies`, in the order in which they were given.
pub open spec fn issued<E, H: Handler<E>>(
    first: CommentTurnModel<H, <H::Response as View>::V, E>,
    replies: Seq<Reply<E>>,
) -> Commands
    decreases replies.len(),
{
    let before = if replies.len() == 0 {
        Seq::empty()
    } else {
        issued(first, replies.drop_last())
    };
    match after(first, replies) {
        Turn::Await(_, command) => before.push(command),
        _ => before,
    }
}

/// How a request goes whose replies all answer their commands: it never gives up,
/// it has finished once `bound` replies are in, and an error that comes in makes it
/// finish with a failure.
pub open spec fn goes_well<E, H: Handler<E>>(
    first: CommentTurnModel<H, <H::Response as View>::V, E>,
    replies: Seq<Reply<E>>,
    bound: nat,
) -> bool {
    all_answer(issued(first, replies), replies) ==> {
        &&& !(after(first, replies) is Unexpected)
        &&& replies.len() >= bound ==> after(first, replies) is Finished
        &&& replies.len() > 0 && replies.last().error() is Some && after(
            first,
            replies.drop_last(),
        ) is Await ==> {
            &&& after(first, replies) matches Turn::Finished(outcome)
            &&& outcome.result is Err
        }
    }
}

/// Whether a request that waits in `turn` takes every reply to its command.
pub open spec fn listens<E, H: Handler<E>>(
    turn: CommentTurnModel<H, <H::Response as View>::V, E>,
) -> bool {
    turn matches Turn::Await(state, command) ==> forall|reply: Reply<E>|
        answers(command, reply) ==> !(#[trigger] state.next(reply) is Unexpected)
}

/// Where every step leads to a turn that takes every reply to its command, a whole
/// run whose replies all answer does not give up.
pub(crate) proof fn lemma_goes_on<E, H: Handler<E>>(
    first: CommentTurnModel<H, <H::Response as View>::V, E>,
    replies: Seq<Reply<E>>,
)
    requires
        first is Await,
        listens(first),
        forall|state: H, reply: Reply<E>| listens(#[trigger] state.next(reply)),
    ensures
        listens(after(first, replies)),
        match after(first, replies) {
            Turn::Await(_, command) => {
                &&& issued(first, replies).len() == replies.len() + 1
                &&& issued(first, replies).last() == command
            },
            _ => true,
        },
        all_answer(issued(first, replies), replies) ==> !(after(first, replies) is Unexpected),
    decreases replies.len(),
{
    if replies.len() > 0 {
        let before = replies.drop_last();
        lemma_goes_on(first, before);
        let commands = issued(first, replies);
        let earlier = issued(first, before);
        assert(forall|i: int| 0 <= i < earlier.len() ==> earlier[i] == commands[i]);
        if all_answer(commands, replies) {
            assert forall|i: int| 0 <= i < earlier.len() && i < before.len() implies answers(
                #[trigger] earlier[i],
                before[i],
            ) by {
                assert(answers(commands[i], replies[i]));
            }
            if let Turn::Await(state, command) = after(first, before) {
                assert(answers(commands[before.len() as int], replies.last()));
            }
        }
    }
}

/// Taking away the reply that came last undoes its coming.
pub(crate) proof fn lemma_last_reply<E>()
    ensures
        forall|replies: Seq<Reply<E>>, reply: Reply<E>|
            (#[trigger] replies.push(reply)).drop_last() == replies,
{
    assert forall|replies: Seq<Reply<E>>, reply: Reply<E>|
        (#[trigger] replies.push(reply)).drop_last() == replies by {
        assert(replies.push(reply).drop_last() =~= replies);
    }
}

} // verus!

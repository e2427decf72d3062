//! Writing a comment.

use crate::protocol::{
    after, ask, asking, broadcast, broadcasting, errors_are_final, fail, failing, goes_well,
    issued, lemma_goes_on, lemma_last_reply, listens, recipients_are_stripped, run, Action,
    Command, Commands, CommentActivity, CommentResponse, CommentResponseModel, CommentTurn,
    CommentTurnModel, EndpointType, Handler, Reply, Turn, UserOperation,
};
use crate::rows::{
    ApiError, Comment, CommentForm, CommentLikeForm, CommentView, ConnectionId, Failure,
    MentionData, Post, User, PLACEHOLDER_AP_ID,
};
use vstd::prelude::*;

verus! {

/// A request to write a comment under a post, or under another comment.
#[derive(Debug, PartialEq, Eq)]
pub struct CreateComment {
    pub content: String,
    pub parent_id: Option<i32>,
    pub post_id: i32,
    pub form_id: Option<String>,
    pub auth: String,
}

/// A [`CreateComment`] that waits for a reply.
#[derive(Debug, PartialEq, Eq)]
pub struct CreateCommentState<'a> {
    pub request: &'a CreateComment,
    pub websocket_id: Option<ConnectionId>,
    pub stage: CreateStage,
}

/// What a [`CreateComment`] waits for, and what it has learned so far.
#[derive(Debug, PartialEq, Eq)]
pub enum CreateStage {
    User,
    Text { user: User },
    Post { user: User, form: CommentForm },
    Ban { user: User, form: CommentForm, post: Post },
    Insert { user: User, content: String, post: Post },
    Endpoint { user: User, content: String, post: Post, comment_id: i32 },
    ApId { user: User, content: String, post: Post, comment_id: i32 },
    Announce { user: User, content: String, post: Post, comment_id: i32, comment: Comment },
    Mentions { user: User, post: Post, comment_id: i32, comment: Comment },
    Notify { user: User, comment_id: i32, comment: Comment },
    Like { user: User, comment_id: i32, comment: Comment, recipient_ids: Vec<i32> },
    AnnounceLike { user: User, comment_id: i32, recipient_ids: Vec<i32> },
    View { recipient_ids: Vec<i32> },
}

impl CreateComment {
    /// The new comment: by `user`, with the cleaned text, under a placeholder
    /// address.
    pub open spec fn comment_form(self, user: User, text: String) -> CommentForm {
        CommentForm {
            content: text,
            parent_id: self.parent_id,
            post_id: self.post_id,
            creator_id: user.id,
            removed: None,
            deleted: None,
            read: None,
            published: None,
            updated: None,
            ap_id: PLACEHOLDER_AP_ID,
            local: true,
        }
    }

    /// The vote that an author casts for the comment.
    pub open spec fn own_like(self, user: User, comment_id: i32) -> CommentLikeForm {
        CommentLikeForm { comment_id, post_id: self.post_id, user_id: user.id, score: 1 }
    }

    /// The first turn: the user is asked for.
    pub open spec fn begin<E>(
        &self,
        websocket_id: Option<ConnectionId>,
    ) -> CommentTurnModel<CreateCommentState<'_>, CommentResponseModel, E> {
        asking(
            CreateCommentState { request: self, websocket_id, stage: CreateStage::User },
            Action::Authenticate { auth: self.auth },
        )
    }

    /// Begins the request.
    pub fn perform<E>(&self, websocket_id: Option<ConnectionId>) -> (turn: CommentTurn<
        CreateCommentState<'_>,
        CommentResponse,
        E,
    >)
        ensures
            turn.model() == self.begin::<E>(websocket_id),
    {
        ask(
            CreateCommentState { request: self, websocket_id, stage: CreateStage::User },
            Action::Authenticate { auth: self.auth.clone() },
        )
    }
}

impl<'a> CreateCommentState<'a> {
    /// The same request, at another stage.
    pub open spec fn at(self, stage: CreateStage) -> CreateCommentState<'a> {
        CreateCommentState { request: self.request, websocket_id: self.websocket_id, stage }
    }

    fn wait<E>(
        request: &'a CreateComment,
        websocket_id: Option<ConnectionId>,
        stage: CreateStage,
        action: Action,
    ) -> (turn: CommentTurn<Self, CommentResponse, E>)
        ensures
            turn.model() == asking::<Self, CommentResponseModel, E>(
                CreateCommentState { request, websocket_id, stage },
                action,
            ),
    {
        ask(CreateCommentState { request, websocket_id, stage }, action)
    }
}

impl<'a, E> Handler<E> for CreateCommentState<'a> {
    type Response = CommentResponse;

    open spec fn next(self, reply: Reply<E>) -> CommentTurnModel<Self, CommentResponseModel, E> {
        match (self.stage, reply) {
            (CreateStage::User, Reply::User(Ok(user))) => asking(
                self.at(CreateStage::Text { user }),
                Action::RemoveSlurs { content: self.request.content },
            ),
            (CreateStage::User, Reply::User(Err(e))) => failing(Failure::Other(e)),
            (CreateStage::Text { user }, Reply::Text(text)) => asking(
                self.at(CreateStage::Post { user, form: self.request.comment_form(user, text) }),
                Action::GetPost { post_id: self.request.post_id },
            ),
            (CreateStage::Post { user, form }, Reply::Post(Ok(post))) => asking(
                self.at(CreateStage::Ban { user, form, post }),
                Action::CheckCommunityBan { user_id: user.id, community_id: post.community_id },
            ),
            (CreateStage::Post { .. }, Reply::Post(Err(e))) => failing(Failure::Other(e)),
            (CreateStage::Ban { user, form, post }, Reply::Checked(Ok(_))) => if post.locked {
                failing(Failure::Api(ApiError::Locked))
            } else {
                asking(
                    self.at(CreateStage::Insert { user, content: form.content, post }),
                    Action::InsertComment(form),
                )
            },
            (CreateStage::Ban { .. }, Reply::Checked(Err(e))) => failing(Failure::Other(e)),
            (CreateStage::Insert { user, content, post }, Reply::Comment(Ok(inserted))) => asking(
                self.at(CreateStage::Endpoint { user, content, post, comment_id: inserted.id }),
                Action::MakeApubEndpoint { endpoint_type: EndpointType::Comment, id: inserted.id },
            ),
            (CreateStage::Insert { .. }, Reply::Comment(Err(e))) => failing(
                e.spec_refusal(ApiError::CouldntCreateComment),
            ),
            (
                CreateStage::Endpoint { user, content, post, comment_id },
                Reply::Address(ap_id),
            ) => asking(
                self.at(CreateStage::ApId { user, content, post, comment_id }),
                Action::UpdateApId { comment_id, ap_id },
            ),
            (
                CreateStage::ApId { user, content, post, comment_id },
                Reply::Comment(Ok(comment)),
            ) => asking(
                self.at(CreateStage::Announce { user, content, post, comment_id, comment }),
                Action::Federate { activity: CommentActivity::Create, comment, user },
            ),
            (CreateStage::ApId { .. }, Reply::Comment(Err(e))) => failing(
                e.spec_refusal(ApiError::CouldntCreateComment),
            ),
            (
                CreateStage::Announce { user, content, post, comment_id, comment },
                Reply::Checked(Ok(_)),
            ) => asking(
                self.at(CreateStage::Mentions { user, post, comment_id, comment }),
                Action::ScrapeMentions { content },
            ),
            (CreateStage::Announce { .. }, Reply::Checked(Err(e))) => failing(Failure::Other(e)),
            (
                CreateStage::Mentions { user, post, comment_id, comment },
                Reply::Mentions(mentions),
            ) => Turn::Await(
                self.at(CreateStage::Notify { user, comment_id, comment }),
                Command::SendLocalNotifs {
                    mentions: mentions@,
                    comment,
                    user,
                    post,
                    do_send_email: true,
                },
            ),
            (
                CreateStage::Notify { user, comment_id, comment },
                Reply::Recipients(Ok(recipient_ids)),
            ) => asking(
                self.at(CreateStage::Like { user, comment_id, comment, recipient_ids }),
                Action::Like(self.request.own_like(user, comment_id)),
            ),
            (CreateStage::Notify { .. }, Reply::Recipients(Err(e))) => failing(Failure::Other(e)),
            (
                CreateStage::Like { user, comment_id, comment, recipient_ids },
                Reply::Stored(Ok(_)),
            ) => asking(
                self.at(CreateStage::AnnounceLike { user, comment_id, recipient_ids }),
                Action::Federate { activity: CommentActivity::Like, comment, user },
            ),
            (CreateStage::Like { .. }, Reply::Stored(Err(e))) => failing(
                e.spec_refusal(ApiError::CouldntLikeComment),
            ),
            (
                CreateStage::AnnounceLike { user, comment_id, recipient_ids },
                Reply::Checked(Ok(_)),
            ) => asking(
                self.at(CreateStage::View { recipient_ids }),
                Action::ReadCommentView { comment_id, my_user_id: Some(user.id) },
            ),
            (CreateStage::AnnounceLike { .. }, Reply::Checked(Err(e))) => failing(
                Failure::Other(e),
            ),
            (CreateStage::View { recipient_ids }, Reply::CommentView(Ok(comment))) => broadcasting(
                UserOperation::CreateComment,
                self.websocket_id,
                CommentResponseModel {
                    comment,
                    recipient_ids: recipient_ids@,
                    form_id: self.request.form_id,
                },
            ),
            (CreateStage::View { .. }, Reply::CommentView(Err(e))) => failing(
                Failure::Other(e.spec_inner()),
            ),
            _ => Turn::Unexpected,
        }
    }

    fn resume(self, reply: Reply<E>) -> (turn: CommentTurn<Self, CommentResponse, E>) {
        let CreateCommentState { request, websocket_id, stage } = self;
        match (stage, reply) {
            (CreateStage::User, Reply::User(Ok(user))) => Self::wait(
                request,
                websocket_id,
                CreateStage::Text { user },
                Action::RemoveSlurs { content: request.content.clone() },
            ),
            (CreateStage::User, Reply::User(Err(e))) => fail(Failure::Other(e)),
            (CreateStage::Text { user }, Reply::Text(text)) => {
                let form = CommentForm {
                    content: text,
                    parent_id: request.parent_id,
                    post_id: request.post_id,
                    creator_id: user.id,
                    removed: None,
                    deleted: None,
                    read: None,
                    published: None,
                    updated: None,
                    ap_id: PLACEHOLDER_AP_ID,
                    local: true,
                };
                Self::wait(
                    request,
                    websocket_id,
                    CreateStage::Post { user, form },
                    Action::GetPost { post_id: request.post_id },
                )
            },
            (CreateStage::Post { user, form }, Reply::Post(Ok(post))) => {
                let action = Action::CheckCommunityBan {
                    user_id: user.id,
                    community_id: post.community_id,
                };
                Self::wait(request, websocket_id, CreateStage::Ban { user, form, post }, action)
            },
            (CreateStage::Post { .. }, Reply::Post(Err(e))) => fail(Failure::Other(e)),
            (CreateStage::Ban { user, form, post }, Reply::Checked(Ok(_))) => {
                if post.locked {
                    return fail(Failure::Api(ApiError::Locked));
                }
                let content = form.content.clone();
                Self::wait(
                    request,
                    websocket_id,
                    CreateStage::Insert { user, content, post },
                    Action::InsertComment(form),
                )
            },
            (CreateStage::Ban { .. }, Reply::Checked(Err(e))) => fail(Failure::Other(e)),
            (CreateStage::Insert { user, content, post }, Reply::Comment(Ok(inserted))) => {
                let comment_id: i32 = inserted.id;
                let action = Action::MakeApubEndpoint {
                    endpoint_type: EndpointType::Comment,
                    id: comment_id,
                };
                Self::wait(
                    request,
                    websocket_id,
                    CreateStage::Endpoint { user, content, post, comment_id },
                    action,
                )
            },
            (CreateStage::Insert { .. }, Reply::Comment(Err(e))) => fail(
                e.refusal(ApiError::CouldntCreateComment),
            ),
            (
                CreateStage::Endpoint { user, content, post, comment_id },
                Reply::Address(ap_id),
            ) => Self::wait(
                request,
                websocket_id,
                CreateStage::ApId { user, content, post, comment_id },
                Action::UpdateApId { comment_id, ap_id },
            ),
            (
                CreateStage::ApId { user, content, post, comment_id },
                Reply::Comment(Ok(comment)),
            ) => {
                let action = Action::Federate {
                    activity: CommentActivity::Create,
                    comment: comment.clone(),
                    user: user.clone(),
                };
                Self::wait(
                    request,
                    websocket_id,
                    CreateStage::Announce { user, content, post, comment_id, comment },
                    action,
                )
            },
            (CreateStage::ApId { .. }, Reply::Comment(Err(e))) => fail(
                e.refusal(ApiError::CouldntCreateComment),
            ),
            (
                CreateStage::Announce { user, content, post, comment_id, comment },
                Reply::Checked(Ok(_)),
            ) => Self::wait(
                request,
                websocket_id,
                CreateStage::Mentions { user, post, comment_id, comment },
                Action::ScrapeMentions { content },
            ),
            (CreateStage::Announce { .. }, Reply::Checked(Err(e))) => fail(Failure::Other(e)),
            (
                CreateStage::Mentions { user, post, comment_id, comment },
                Reply::Mentions(mentions),
            ) => {
                let command = Command::SendLocalNotifs {
                    mentions,
                    comment: comment.clone(),
                    user: user.clone(),
                    post,
                    do_send_email: true,
                };
                let stage = CreateStage::Notify { user, comment_id, comment };
                Turn::Await(CreateCommentState { request, websocket_id, stage }, command)
            },
            (
                CreateStage::Notify { user, comment_id, comment },
                Reply::Recipients(Ok(recipient_ids)),
            ) => {
                // Authors like their own comments.
                let form = CommentLikeForm {
                    comment_id,
                    post_id: request.post_id,
                    user_id: user.id,
                    score: 1,
                };
                Self::wait(
                    request,
                    websocket_id,
                    CreateStage::Like { user, comment_id, comment, recipient_ids },
                    Action::Like(form),
                )
            },
            (CreateStage::Notify { .. }, Reply::Recipients(Err(e))) => fail(Failure::Other(e)),
            (
                CreateStage::Like { user, comment_id, comment, recipient_ids },
                Reply::Stored(Ok(_)),
            ) => {
                let action = Action::Federate {
                    activity: CommentActivity::Like,
                    comment,
                    user: user.clone(),
                };
                Self::wait(
                    request,
                    websocket_id,
                    CreateStage::AnnounceLike { user, comment_id, recipient_ids },
                    action,
                )
            },
            (CreateStage::Like { .. }, Reply::Stored(Err(e))) => fail(
                e.refusal(ApiError::CouldntLikeComment),
            ),
            (
                CreateStage::AnnounceLike { user, comment_id, recipient_ids },
                Reply::Checked(Ok(_)),
            ) => Self::wait(
                request,
                websocket_id,
                CreateStage::View { recipient_ids },
                Action::ReadCommentView { comment_id, my_user_id: Some(user.id) },
            ),
            (CreateStage::AnnounceLike { .. }, Reply::Checked(Err(e))) => fail(Failure::Other(e)),
            (CreateStage::View { recipient_ids }, Reply::CommentView(Ok(comment))) => broadcast(
                UserOperation::CreateComment,
                websocket_id,
                CommentResponse { comment, recipient_ids, form_id: request.form_id.clone() },
            ),
            (CreateStage::View { .. }, Reply::CommentView(Err(e))) => fail(
                Failure::Other(e.inner()),
            ),
            _ => Turn::Unexpected,
        }
    }
}

impl CreateComment {
    /// Whether the replies give leave to write: the user is known, the post is
    /// there, the user is not banned from its community, and it is not locked.
    pub open spec fn leave<E>(self, replies: Seq<Reply<E>>, commands: Commands) -> bool {
        &&& replies.len() >= 4
        &&& replies[0] matches Reply::User(Ok(user))
        &&& replies[1] matches Reply::Text(_)
        &&& replies[2] matches Reply::Post(Ok(post))
        &&& replies[3] matches Reply::Checked(Ok(_))
        &&& commands.len() >= 4
        &&& commands[0] == run(Action::Authenticate { auth: self.auth })
        &&& commands[1] == run(Action::RemoveSlurs { content: self.content })
        &&& commands[2] == run(Action::GetPost { post_id: self.post_id })
        &&& commands[3] == run(
            Action::CheckCommunityBan { user_id: user.id, community_id: post.community_id },
        )
        &&& !post.locked
    }

    /// Whether the comment that was inserted has the number `comment_id`, and its
    /// address has been asked for.
    spec fn inserts<E>(
        self,
        replies: Seq<Reply<E>>,
        commands: Commands,
        comment_id: i32,
    ) -> bool {
        &&& replies.len() >= 5
        &&& replies[4] matches Reply::Comment(Ok(inserted))
        &&& inserted.id == comment_id
        &&& commands.len() >= 6
        &&& commands[5] == run(
            Action::MakeApubEndpoint { endpoint_type: EndpointType::Comment, id: comment_id },
        )
    }

    /// Whether `comment` is the inserted comment as it came back when it was given
    /// its address: the one made for a comment of its number.
    pub open spec fn addressed<E>(
        self,
        replies: Seq<Reply<E>>,
        commands: Commands,
        comment: Comment,
    ) -> bool {
        &&& replies.len() >= 7
        &&& replies[4] matches Reply::Comment(Ok(inserted))
        &&& replies[5] matches Reply::Address(ap_id)
        &&& replies[6] == Reply::<E>::Comment(Ok(comment))
        &&& commands.len() >= 7
        &&& commands[5] == run(
            Action::MakeApubEndpoint { endpoint_type: EndpointType::Comment, id: inserted.id },
        )
        &&& commands[6] == run(Action::UpdateApId { comment_id: inserted.id, ap_id })
    }

    /// The replies that lead to `stage`, and the commands that were given by then.
    spec fn reached<E>(
        self,
        stage: CreateStage,
        replies: Seq<Reply<E>>,
        commands: Commands,
    ) -> bool {
        &&& commands.len() == replies.len() + 1
        &&& match stage {
            CreateStage::User => {
                &&& replies.len() == 0
                &&& commands[0] == run(Action::Authenticate { auth: self.auth })
            },
            CreateStage::Text { user } => {
                &&& replies.len() == 1
                &&& replies[0] == Reply::<E>::User(Ok(user))
                &&& commands[0] == run(Action::Authenticate { auth: self.auth })
                &&& commands[1] == run(Action::RemoveSlurs { content: self.content })
            },
            CreateStage::Post { user, form } => {
                &&& replies.len() == 2
                &&& replies[0] == Reply::<E>::User(Ok(user))
                &&& replies[1] matches Reply::Text(text)
                &&& form == self.comment_form(user, text)
                &&& commands[0] == run(Action::Authenticate { auth: self.auth })
                &&& commands[1] == run(Action::RemoveSlurs { content: self.content })
                &&& commands[2] == run(Action::GetPost { post_id: self.post_id })
            },
            CreateStage::Ban { user, form, post } => {
                &&& replies.len() == 3
                &&& replies[0] == Reply::<E>::User(Ok(user))
                &&& replies[1] matches Reply::Text(text)
                &&& replies[2] == Reply::<E>::Post(Ok(post))
                &&& form == self.comment_form(user, text)
                &&& commands[0] == run(Action::Authenticate { auth: self.auth })
                &&& commands[1] == run(Action::RemoveSlurs { content: self.content })
                &&& commands[2] == run(Action::GetPost { post_id: self.post_id })
                &&& commands[3] == run(
                    Action::CheckCommunityBan { user_id: user.id, community_id: post.community_id },
                )
            },
            CreateStage::Insert { .. } => replies.len() == 4 && self.leave(replies, commands),
            CreateStage::Endpoint { comment_id, .. } => {
                &&& replies.len() == 5
                &&& self.leave(replies, commands)
                &&& self.inserts(replies, commands, comment_id)
            },
            CreateStage::ApId { comment_id, .. } => {
                &&& replies.len() == 6
                &&& self.leave(replies, commands)
                &&& self.inserts(replies, commands, comment_id)
                &&& replies[5] matches Reply::Address(ap_id)
                &&& commands[6] == run(Action::UpdateApId { comment_id, ap_id })
            },
            CreateStage::Announce { comment, .. } => {
                &&& replies.len() == 7
                &&& self.leave(replies, commands)
                &&& self.addressed(replies, commands, comment)
            },
            CreateStage::Mentions { comment, .. } => {
                &&& replies.len() == 8
                &&& self.leave(replies, commands)
                &&& self.addressed(replies, commands, comment)
            },
            CreateStage::Notify { comment, .. } => {
                &&& replies.len() == 9
                &&& self.leave(replies, commands)
                &&& self.addressed(replies, commands, comment)
            },
            CreateStage::Like { comment, .. } => {
                &&& replies.len() == 10
                &&& self.leave(replies, commands)
                &&& self.addressed(replies, commands, comment)
            },
            CreateStage::AnnounceLike { .. } => {
                &&& replies.len() == 11
                &&& self.leave(replies, commands)
            },
            CreateStage::View { .. } => replies.len() == 12 && self.leave(replies, commands),
        }
    }

    proof fn lemma_reached<E>(&self, websocket_id: Option<ConnectionId>, replies: Seq<Reply<E>>)
        ensures
            after(self.begin(websocket_id), replies) matches Turn::Await(state, _) ==> {
                &&& state.request == self
                &&& state.websocket_id == websocket_id
                &&& self.reached(state.stage, replies, issued(self.begin(websocket_id), replies))
            },
        decreases replies.len(),
    {
        if replies.len() > 0 {
            self.lemma_reached(websocket_id, replies.drop_last());
        }
    }

    /// Nothing is stored and nothing is sent without leave.
    pub proof fn changes_need_leave<E>(
        &self,
        websocket_id: Option<ConnectionId>,
        replies: Seq<Reply<E>>,
    )
        ensures
            after(self.begin(websocket_id), replies) matches Turn::Await(_, command)
                && command.changes() ==> self.leave(
                replies,
                issued(self.begin(websocket_id), replies),
            ),
    {
        self.lemma_reached(websocket_id, replies);
        if replies.len() > 0 {
            self.lemma_reached(websocket_id, replies.drop_last());
        }
    }

    /// The comment that is inserted is by the user who asked for it, with the
    /// text as it was cleaned, where the request wanted it.
    pub proof fn inserted_comment<E>(
        &self,
        websocket_id: Option<ConnectionId>,
        replies: Seq<Reply<E>>,
    )
        ensures
            after(self.begin(websocket_id), replies) matches Turn::Await(
                _,
                Command::Run(Action::InsertComment(form)),
            ) ==> {
                &&& replies.len() == 4
                &&& replies[0] matches Reply::User(Ok(user))
                &&& replies[1] matches Reply::Text(text)
                &&& form == self.comment_form(user, text)
            },
    {
        if replies.len() > 0 {
            self.lemma_reached(websocket_id, replies.drop_last());
        }
    }

    /// A comment is given one address, the one that was made for a comment of its
    /// number.
    pub proof fn stored_address<E>(
        &self,
        websocket_id: Option<ConnectionId>,
        replies: Seq<Reply<E>>,
    )
        ensures
            after(self.begin(websocket_id), replies) matches Turn::Await(
                _,
                Command::Run(Action::UpdateApId { comment_id, ap_id }),
            ) ==> {
                &&& replies.len() == 6
                &&& replies[4] matches Reply::Comment(Ok(inserted))
                &&& comment_id == inserted.id
                &&& replies[5] == Reply::<E>::Address(ap_id)
                &&& issued(self.begin(websocket_id), replies)[5] == run(
                    Action::MakeApubEndpoint {
                        endpoint_type: EndpointType::Comment,
                        id: inserted.id,
                    },
                )
            },
    {
        if replies.len() > 0 {
            self.lemma_reached(websocket_id, replies.drop_last());
        }
    }

    /// What other sites and the notified users hear of is the comment under its
    /// own address: nothing goes out under the placeholder.
    pub proof fn addresses_come_first<E>(
        &self,
        websocket_id: Option<ConnectionId>,
        replies: Seq<Reply<E>>,
    )
        ensures
            ({
                let commands = issued(self.begin(websocket_id), replies);
                match after(self.begin(websocket_id), replies) {
                    Turn::Await(_, Command::Run(Action::Federate { comment, .. })) => {
                        self.addressed(replies, commands, comment)
                    },
                    Turn::Await(_, Command::SendLocalNotifs { comment, .. }) => {
                        self.addressed(replies, commands, comment)
                    },
                    _ => true,
                }
            }),
    {
        if replies.len() > 0 {
            self.lemma_reached(websocket_id, replies.drop_last());
        }
    }

    /// Nobody writes under a locked post: the request is refused before anything
    /// is stored.
    pub proof fn locked_posts_are_closed<E>(
        &self,
        websocket_id: Option<ConnectionId>,
        user: User,
        text: String,
        post: Post,
    )
        requires
            post.locked,
        ensures
            after(
                self.begin(websocket_id),
                seq![
                    Reply::<E>::User(Ok(user)),
                    Reply::Text(text),
                    Reply::Post(Ok(post)),
                    Reply::Checked(Ok(())),
                ],
            ) == failing::<CreateCommentState<'_>, CommentResponseModel, E>(
                Failure::Api(ApiError::Locked),
            ),
    {
        lemma_last_reply::<E>();
        reveal_with_fuel(after, 5);
    }

    /// A request with leave that meets no error: these are its commands, in this
    /// order, and this is how it ends.
    pub proof fn succeeds<E>(
        &self,
        websocket_id: Option<ConnectionId>,
        user: User,
        text: String,
        post: Post,
        inserted: Comment,
        ap_id: String,
        comment: Comment,
        mentions: Vec<MentionData>,
        recipient_ids: Vec<i32>,
        view: CommentView,
    )
        requires
            !post.locked,
        ensures
            ({
                let replies = seq![
                    Reply::<E>::User(Ok(user)),
                    Reply::Text(text),
                    Reply::Post(Ok(post)),
                    Reply::Checked(Ok(())),
                    Reply::Comment(Ok(inserted)),
                    Reply::Address(ap_id),
                    Reply::Comment(Ok(comment)),
                    Reply::Checked(Ok(())),
                    Reply::Mentions(mentions),
                    Reply::Recipients(Ok(recipient_ids)),
                    Reply::Stored(Ok(())),
                    Reply::Checked(Ok(())),
                    Reply::CommentView(Ok(view)),
                ];
                &&& issued(self.begin(websocket_id), replies) == seq![
                    run(Action::Authenticate { auth: self.auth }),
                    run(Action::RemoveSlurs { content: self.content }),
                    run(Action::GetPost { post_id: self.post_id }),
                    run(
                        Action::CheckCommunityBan {
                            user_id: user.id,
                            community_id: post.community_id,
                        },
                    ),
                    run(Action::InsertComment(self.comment_form(user, text))),
                    run(
                        Action::MakeApubEndpoint {
                            endpoint_type: EndpointType::Comment,
                            id: inserted.id,
                        },
                    ),
                    run(Action::UpdateApId { comment_id: inserted.id, ap_id }),
                    run(Action::Federate { activity: CommentActivity::Create, comment, user }),
                    run(Action::ScrapeMentions { content: text }),
                    Command::SendLocalNotifs {
                        mentions: mentions@,
                        comment,
                        user,
                        post,
                        do_send_email: true,
                    },
                    run(Action::Like(self.own_like(user, inserted.id))),
                    run(Action::Federate { activity: CommentActivity::Like, comment, user }),
                    run(
                        Action::ReadCommentView {
                            comment_id: inserted.id,
                            my_user_id: Some(user.id),
                        },
                    ),
                ]
                &&& after(self.begin(websocket_id), replies) == broadcasting::<
                    CreateCommentState<'_>,
                    E,
                >(
                    UserOperation::CreateComment,
                    websocket_id,
                    CommentResponseModel {
                        comment: view,
                        recipient_ids: recipient_ids@,
                        form_id: self.form_id,
                    },
                )
            }),
    {
        lemma_last_reply::<E>();
        reveal_with_fuel(after, 14);
        reveal_with_fuel(issued, 14);
    }

    /// A request ends within a fixed number of replies.
    pub proof fn ends<E>(&self, websocket_id: Option<ConnectionId>, replies: Seq<Reply<E>>)
        ensures
            replies.len() >= 13 ==> !(after(self.begin(websocket_id), replies) is Await),
    {
        self.lemma_reached(websocket_id, replies);
    }

    /// A request whose replies all answer its commands goes well: it finishes with
    /// an answer or a failure.
    pub proof fn finishes<E>(&self, websocket_id: Option<ConnectionId>, replies: Seq<Reply<E>>)
        ensures
            goes_well(self.begin(websocket_id), replies, 13),
    {
        let first = self.begin::<E>(websocket_id);
        assert forall|state: CreateCommentState<'_>, reply: Reply<E>| listens(
            #[trigger] state.next(reply),
        ) by {
            state.takes_every_reply(reply);
        }
        lemma_goes_on(first, replies);
        self.ends(websocket_id, replies);
        if replies.len() > 0 {
            if let Turn::Await(state, _) = after(first, replies.drop_last()) {
                state.errors_end_it(replies.last());
            }
        }
    }
}

impl<'a> CreateCommentState<'a> {
    /// After every step the request takes every reply to its command.
    pub proof fn takes_every_reply<E>(self, reply: Reply<E>)
        ensures
            listens(self.next(reply)),
    {
    }

    /// At every stage an error ends the request.
    pub proof fn errors_end_it<E>(self, reply: Reply<E>)
        ensures
            errors_are_final(reply, self.next(reply)),
    {
    }

    /// The client never learns who was notified; the chat server does.
    pub proof fn strips_recipients<E>(self, reply: Reply<E>)
        ensures
            recipients_are_stripped(
                Some(UserOperation::CreateComment),
                self.websocket_id,
                self.next(reply),
            ),
    {
    }
}

} // verus!

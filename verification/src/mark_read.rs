//! Marking a reply as read.

use crate::protocol::{
    after, answer, answering, ask, asking, errors_are_final, fail, failing, goes_well, issued,
    lemma_goes_on, lemma_last_reply, listens, recipients_are_stripped, run, Action, Commands,
    CommentResponse, CommentResponseModel, CommentTurn, CommentTurnModel, Handler, Reply, Turn,
};
use crate::rows::{ApiError, Comment, CommentView, ConnectionId, Failure, Post, User};
use vstd::prelude::*;

verus! {

/// A request by the one whom a comment replies to: mark it as read, or as unread.
#[derive(Debug, PartialEq, Eq)]
pub struct MarkCommentAsRead {
    pub edit_id: i32,
    pub read: bool,
    pub auth: String,
}

/// A [`MarkCommentAsRead`] that waits for a reply.
#[derive(Debug, PartialEq, Eq)]
pub struct MarkCommentAsReadState<'a> {
    pub request: &'a MarkCommentAsRead,
    pub websocket_id: Option<ConnectionId>,
    pub stage: MarkReadStage,
}

/// What a [`MarkCommentAsRead`] waits for, and what it has learned so far.
#[derive(Debug, PartialEq, Eq)]
pub enum MarkReadStage {
    User,
    Original { user: User },
    Ban { user: User, original: CommentView },
    ParentComment { user: User },
    ParentPost { user: User },
    Update { user_id: i32 },
    View,
}

impl MarkCommentAsRead {
    /// The first turn: the user is asked for.
    pub open spec fn begin<E>(
        &self,
        websocket_id: Option<ConnectionId>,
    ) -> CommentTurnModel<MarkCommentAsReadState<'_>, CommentResponseModel, E> {
        asking(
            MarkCommentAsReadState { request: self, websocket_id, stage: MarkReadStage::User },
            Action::Authenticate { auth: self.auth },
        )
    }

    /// Begins the request.
    pub fn perform<E>(&self, websocket_id: Option<ConnectionId>) -> (turn: CommentTurn<
        MarkCommentAsReadState<'_>,
        CommentResponse,
        E,
    >)
        ensures
            turn.model() == self.begin::<E>(websocket_id),
    {
        ask(
            MarkCommentAsReadState { request: self, websocket_id, stage: MarkReadStage::User },
            Action::Authenticate { auth: self.auth.clone() },
        )
    }
}

impl<'a> MarkCommentAsReadState<'a> {
    /// The same request, at another stage.
    pub open spec fn at(self, stage: MarkReadStage) -> MarkCommentAsReadState<'a> {
        MarkCommentAsReadState { request: self.request, websocket_id: self.websocket_id, stage }
    }

    fn wait<E>(
        request: &'a MarkCommentAsRead,
        websocket_id: Option<ConnectionId>,
        stage: MarkReadStage,
        action: Action,
    ) -> (turn: CommentTurn<Self, CommentResponse, E>)
        ensures
            turn.model() == asking::<Self, CommentResponseModel, E>(
                MarkCommentAsReadState { request, websocket_id, stage },
                action,
            ),
    {
        ask(MarkCommentAsReadState { request, websocket_id, stage }, action)
    }
}

impl<'a> MarkCommentAsReadState<'a> {
    /// The turn after it is known who wrote what the comment replies to: only
    /// that user may go on.
    pub open spec fn decided<E>(
        self,
        user: User,
        parent_creator_id: i32,
    ) -> CommentTurnModel<Self, CommentResponseModel, E> {
        if user.id != parent_creator_id {
            failing(Failure::Api(ApiError::NoCommentEditAllowed))
        } else {
            asking(
                self.at(MarkReadStage::Update { user_id: user.id }),
                Action::UpdateRead { comment_id: self.request.edit_id, read: self.request.read },
            )
        }
    }

    fn decide<E>(
        request: &'a MarkCommentAsRead,
        websocket_id: Option<ConnectionId>,
        user: User,
        parent_creator_id: i32,
    ) -> (turn: CommentTurn<Self, CommentResponse, E>)
        ensures
            forall|stage: MarkReadStage|
                turn.model() == (MarkCommentAsReadState {
                    request,
                    websocket_id,
                    stage,
                }).decided::<E>(user, parent_creator_id),
    {
        if user.id != parent_creator_id {
            return fail(Failure::Api(ApiError::NoCommentEditAllowed));
        }
        Self::wait(
            request,
            websocket_id,
            MarkReadStage::Update { user_id: user.id },
            Action::UpdateRead { comment_id: request.edit_id, read: request.read },
        )
    }
}

impl<'a, E> Handler<E> for MarkCommentAsReadState<'a> {
    type Response = CommentResponse;

    open spec fn next(self, reply: Reply<E>) -> CommentTurnModel<Self, CommentResponseModel, E> {
        let edit_id = self.request.edit_id;
        match (self.stage, reply) {
            (MarkReadStage::User, Reply::User(Ok(user))) => asking(
                self.at(MarkReadStage::Original { user }),
                Action::ReadCommentView { comment_id: edit_id, my_user_id: None },
            ),
            (MarkReadStage::User, Reply::User(Err(e))) => failing(Failure::Other(e)),
            (MarkReadStage::Original { user }, Reply::CommentView(Ok(original))) => asking(
                self.at(MarkReadStage::Ban { user, original }),
                Action::CheckCommunityBan { user_id: user.id, community_id: original.community_id },
            ),
            (MarkReadStage::Original { .. }, Reply::CommentView(Err(e))) => failing(
                Failure::Other(e.spec_inner()),
            ),
            (MarkReadStage::Ban { user, original }, Reply::Checked(Ok(_))) => {
                match original.parent_id {
                    Some(parent_id) => asking(
                        self.at(MarkReadStage::ParentComment { user }),
                        Action::ReadCommentView { comment_id: parent_id, my_user_id: None },
                    ),
                    None => asking(
                        self.at(MarkReadStage::ParentPost { user }),
                        Action::ReadPost { post_id: original.post_id },
                    ),
                }
            },
            (MarkReadStage::Ban { .. }, Reply::Checked(Err(e))) => failing(Failure::Other(e)),
            (MarkReadStage::ParentComment { user }, Reply::CommentView(Ok(parent))) => self.decided(
                user,
                parent.creator_id,
            ),
            (MarkReadStage::ParentComment { .. }, Reply::CommentView(Err(e))) => failing(
                Failure::Other(e.spec_inner()),
            ),
            (MarkReadStage::ParentPost { user }, Reply::StoredPost(Ok(parent))) => self.decided(
                user,
                parent.creator_id,
            ),
            (MarkReadStage::ParentPost { .. }, Reply::StoredPost(Err(e))) => failing(
                Failure::Other(e.spec_inner()),
            ),
            (MarkReadStage::Update { user_id }, Reply::Comment(Ok(_))) => asking(
                self.at(MarkReadStage::View),
                Action::ReadCommentView { comment_id: edit_id, my_user_id: Some(user_id) },
            ),
            (MarkReadStage::Update { .. }, Reply::Comment(Err(e))) => failing(
                e.spec_refusal(ApiError::CouldntUpdateComment),
            ),
            (MarkReadStage::View, Reply::CommentView(Ok(comment))) => answering(
                CommentResponseModel { comment, recipient_ids: Seq::empty(), form_id: None },
            ),
            (MarkReadStage::View, Reply::CommentView(Err(e))) => failing(
                Failure::Other(e.spec_inner()),
            ),
            _ => Turn::Unexpected,
        }
    }

    fn resume(self, reply: Reply<E>) -> (turn: CommentTurn<Self, CommentResponse, E>) {
        let MarkCommentAsReadState { request, websocket_id, stage } = self;
        let edit_id: i32 = request.edit_id;
        match (stage, reply) {
            (MarkReadStage::User, Reply::User(Ok(user))) => Self::wait(
                request,
                websocket_id,
                MarkReadStage::Original { user },
                Action::ReadCommentView { comment_id: edit_id, my_user_id: None },
            ),
            (MarkReadStage::User, Reply::User(Err(e))) => fail(Failure::Other(e)),
            (MarkReadStage::Original { user }, Reply::CommentView(Ok(original))) => {
                let action = Action::CheckCommunityBan {
                    user_id: user.id,
                    community_id: original.community_id,
                };
                Self::wait(request, websocket_id, MarkReadStage::Ban { user, original }, action)
            },
            (MarkReadStage::Original { .. }, Reply::CommentView(Err(e))) => fail(
                Failure::Other(e.inner()),
            ),
            (MarkReadStage::Ban { user, original }, Reply::Checked(Ok(_))) => {
                // Only the recipient can mark as read: the author of the parent.
                match original.parent_id {
                    Some(parent_id) => Self::wait(
                        request,
                        websocket_id,
                        MarkReadStage::ParentComment { user },
                        Action::ReadCommentView { comment_id: parent_id, my_user_id: None },
                    ),
                    None => Self::wait(
                        request,
                        websocket_id,
                        MarkReadStage::ParentPost { user },
                        Action::ReadPost { post_id: original.post_id },
                    ),
                }
            },
            (MarkReadStage::Ban { .. }, Reply::Checked(Err(e))) => fail(Failure::Other(e)),
            (MarkReadStage::ParentComment { user }, Reply::CommentView(Ok(parent))) => {
                Self::decide(request, websocket_id, user, parent.creator_id)
            },
            (MarkReadStage::ParentComment { .. }, Reply::CommentView(Err(e))) => fail(
                Failure::Other(e.inner()),
            ),
            (MarkReadStage::ParentPost { user }, Reply::StoredPost(Ok(parent))) => Self::decide(
                request,
                websocket_id,
                user,
                parent.creator_id,
            ),
            (MarkReadStage::ParentPost { .. }, Reply::StoredPost(Err(e))) => fail(
                Failure::Other(e.inner()),
            ),
            (MarkReadStage::Update { user_id }, Reply::Comment(Ok(_))) => Self::wait(
                request,
                websocket_id,
                MarkReadStage::View,
                Action::ReadCommentView { comment_id: edit_id, my_user_id: Some(user_id) },
            ),
            (MarkReadStage::Update { .. }, Reply::Comment(Err(e))) => fail(
                e.refusal(ApiError::CouldntUpdateComment),
            ),
            (MarkReadStage::View, Reply::CommentView(Ok(comment))) => answer(comment),
            (MarkReadStage::View, Reply::CommentView(Err(e))) => fail(Failure::Other(e.inner())),
            _ => Turn::Unexpected,
        }
    }
}

impl MarkCommentAsRead {
    /// Whether the replies give leave to mark the comment: the user is known, the
    /// comment is there, the user is not banned from its community, and wrote
    /// what it replies to, a comment or the post.
    pub open spec fn leave<E>(self, replies: Seq<Reply<E>>, commands: Commands) -> bool {
        &&& replies.len() >= 4
        &&& replies[0] matches Reply::User(Ok(user))
        &&& replies[1] matches Reply::CommentView(Ok(original))
        &&& replies[2] matches Reply::Checked(Ok(_))
        &&& commands.len() >= 4
        &&& commands[0] == run(Action::Authenticate { auth: self.auth })
        &&& commands[1] == run(
            Action::ReadCommentView { comment_id: self.edit_id, my_user_id: None },
        )
        &&& commands[2] == run(
            Action::CheckCommunityBan { user_id: user.id, community_id: original.community_id },
        )
        &&& match original.parent_id {
            Some(parent_id) => {
                &&& commands[3] == run(
                    Action::ReadCommentView { comment_id: parent_id, my_user_id: None },
                )
                &&& replies[3] matches Reply::CommentView(Ok(parent))
                &&& user.id == parent.creator_id
            },
            None => {
                &&& commands[3] == run(Action::ReadPost { post_id: original.post_id })
                &&& replies[3] matches Reply::StoredPost(Ok(parent))
                &&& user.id == parent.creator_id
            },
        }
    }

    /// The replies that lead to `stage`, and the commands that were given by then.
    spec fn reached<E>(
        self,
        stage: MarkReadStage,
        replies: Seq<Reply<E>>,
        commands: Commands,
    ) -> bool {
        let authenticate = run(Action::Authenticate { auth: self.auth });
        let read_original = run(
            Action::ReadCommentView { comment_id: self.edit_id, my_user_id: None },
        );
        match stage {
            MarkReadStage::User => {
                &&& replies.len() == 0
                &&& commands.len() == 1
                &&& commands[0] == authenticate
            },
            MarkReadStage::Original { user } => {
                &&& replies.len() == 1
                &&& replies[0] == Reply::<E>::User(Ok(user))
                &&& commands.len() == 2
                &&& commands[0] == authenticate
                &&& commands[1] == read_original
            },
            MarkReadStage::Ban { user, original } => {
                &&& replies.len() == 2
                &&& replies[0] == Reply::<E>::User(Ok(user))
                &&& replies[1] == Reply::<E>::CommentView(Ok(original))
                &&& commands.len() == 3
                &&& commands[0] == authenticate
                &&& commands[1] == read_original
                &&& commands[2] == run(
                    Action::CheckCommunityBan {
                        user_id: user.id,
                        community_id: original.community_id,
                    },
                )
            },
            MarkReadStage::ParentComment { user } => {
                &&& replies.len() == 3
                &&& replies[0] == Reply::<E>::User(Ok(user))
                &&& replies[1] matches Reply::CommentView(Ok(original))
                &&& replies[2] matches Reply::Checked(Ok(_))
                &&& commands.len() == 4
                &&& commands[0] == authenticate
                &&& commands[1] == read_original
                &&& commands[2] == run(
                    Action::CheckCommunityBan {
                        user_id: user.id,
                        community_id: original.community_id,
                    },
                )
                &&& original.parent_id matches Some(parent_id)
                &&& commands[3] == run(
                    Action::ReadCommentView { comment_id: parent_id, my_user_id: None },
                )
            },
            MarkReadStage::ParentPost { user } => {
                &&& replies.len() == 3
                &&& replies[0] == Reply::<E>::User(Ok(user))
                &&& replies[1] matches Reply::CommentView(Ok(original))
                &&& replies[2] matches Reply::Checked(Ok(_))
                &&& commands.len() == 4
                &&& commands[0] == authenticate
                &&& commands[1] == read_original
                &&& commands[2] == run(
                    Action::CheckCommunityBan {
                        user_id: user.id,
                        community_id: original.community_id,
                    },
                )
                &&& original.parent_id is None
                &&& commands[3] == run(Action::ReadPost { post_id: original.post_id })
            },
            MarkReadStage::Update { .. } => replies.len() == 4 && self.leave(replies, commands),
            MarkReadStage::View => replies.len() == 5 && self.leave(replies, commands),
        }
    }

    proof fn lemma_reached<E>(&self, websocket_id: Option<ConnectionId>, replies: Seq<Reply<E>>)
        ensures
            after(self.begin(websocket_id), replies) matches Turn::Await(state, _) ==> {
                &&& state.request == self
                &&& state.websocket_id == websocket_id
                &&& self.reached(state.stage, replies, issued(self.begin(websocket_id), replies))
            },
        decreases replies.len(),
    {
        if replies.len() > 0 {
            self.lemma_reached(websocket_id, replies.drop_last());
        }
    }

    /// Nothing is stored and nothing is sent without leave.
    pub proof fn changes_need_leave<E>(
        &self,
        websocket_id: Option<ConnectionId>,
        replies: Seq<Reply<E>>,
    )
        ensures
            after(self.begin(websocket_id), replies) matches Turn::Await(_, command)
                && command.changes() ==> self.leave(
                replies,
                issued(self.begin(websocket_id), replies),
            ),
    {
        self.lemma_reached(websocket_id, replies);
        if replies.len() > 0 {
            self.lemma_reached(websocket_id, replies.drop_last());
        }
    }

    /// A request ends within a fixed number of replies.
    pub proof fn ends<E>(&self, websocket_id: Option<ConnectionId>, replies: Seq<Reply<E>>)
        ensures
            replies.len() >= 6 ==> !(after(self.begin(websocket_id), replies) is Await),
    {
        self.lemma_reached(websocket_id, replies);
    }

    /// A request whose replies all answer its commands goes well: it finishes with
    /// an answer or a failure.
    pub proof fn finishes<E>(&self, websocket_id: Option<ConnectionId>, replies: Seq<Reply<E>>)
        ensures
            goes_well(self.begin(websocket_id), replies, 6),
    {
        let first = self.begin::<E>(websocket_id);
        assert forall|state: MarkCommentAsReadState<'_>, reply: Reply<E>| listens(
            #[trigger] state.next(reply),
        ) by {
            state.takes_every_reply(reply);
        }
        lemma_goes_on(first, replies);
        self.ends(websocket_id, replies);
        if replies.len() > 0 {
            if let Turn::Await(state, _) = after(first, replies.drop_last()) {
                state.errors_end_it(replies.last());
            }
        }
    }

    /// A user whom the comment does not reply to is refused, and nothing is
    /// changed.
    pub proof fn strangers_are_refused<E>(
        &self,
        websocket_id: Option<ConnectionId>,
        user: User,
        original: CommentView,
        parent_comment: CommentView,
        parent_post: Post,
    )
        ensures
            ({
                let replies = seq![
                    Reply::<E>::User(Ok(user)),
                    Reply::CommentView(Ok(original)),
                    Reply::Checked(Ok(())),
                ];
                let refused = failing::<MarkCommentAsReadState<'_>, CommentResponseModel, E>(
                    Failure::Api(ApiError::NoCommentEditAllowed),
                );
                &&& original.parent_id is Some && user.id != parent_comment.creator_id ==> after(
                    self.begin(websocket_id),
                    replies.push(Reply::CommentView(Ok(parent_comment))),
                ) == refused
                &&& original.parent_id is None && user.id != parent_post.creator_id ==> after(
                    self.begin(websocket_id),
                    replies.push(Reply::StoredPost(Ok(parent_post))),
                ) == refused
            }),
    {
        lemma_last_reply::<E>();
        reveal_with_fuel(after, 5);
    }

    /// A request about a reply to a comment, with leave, that meets no error:
    /// these are its commands, in this order, and this is how it ends.
    pub proof fn succeeds_under_comment<E>(
        &self,
        websocket_id: Option<ConnectionId>,
        user: User,
        original: CommentView,
        parent_id: i32,
        parent: CommentView,
        comment: Comment,
        view: CommentView,
    )
        requires
            original.parent_id == Some(parent_id),
            user.id == parent.creator_id,
        ensures
            ({
                let replies = seq![
                    Reply::<E>::User(Ok(user)),
                    Reply::CommentView(Ok(original)),
                    Reply::Checked(Ok(())),
                    Reply::CommentView(Ok(parent)),
                    Reply::Comment(Ok(comment)),
                    Reply::CommentView(Ok(view)),
                ];
                &&& issued(self.begin(websocket_id), replies) == seq![
                    run(Action::Authenticate { auth: self.auth }),
                    run(Action::ReadCommentView { comment_id: self.edit_id, my_user_id: None }),
                    run(
                        Action::CheckCommunityBan {
                            user_id: user.id,
                            community_id: original.community_id,
                        },
                    ),
                    run(Action::ReadCommentView { comment_id: parent_id, my_user_id: None }),
                    run(Action::UpdateRead { comment_id: self.edit_id, read: self.read }),
                    run(
                        Action::ReadCommentView {
                            comment_id: self.edit_id,
                            my_user_id: Some(user.id),
                        },
                    ),
                ]
                &&& after(self.begin(websocket_id), replies) == answering::<
                    MarkCommentAsReadState<'_>,
                    CommentResponseModel,
                    E,
                >(
                    CommentResponseModel {
                        comment: view,
                        recipient_ids: Seq::empty(),
                        form_id: None,
                    },
                )
            }),
    {
        lemma_last_reply::<E>();
        reveal_with_fuel(after, 7);
        reveal_with_fuel(issued, 7);
    }

    /// A request about a reply to a post, with leave, that meets no error: these
    /// are its commands, in this order, and this is how it ends.
    pub proof fn succeeds_under_post<E>(
        &self,
        websocket_id: Option<ConnectionId>,
        user: User,
        original: CommentView,
        parent: Post,
        comment: Comment,
        view: CommentView,
    )
        requires
            original.parent_id is None,
            user.id == parent.creator_id,
        ensures
            ({
                let replies = seq![
                    Reply::<E>::User(Ok(user)),
                    Reply::CommentView(Ok(original)),
                    Reply::Checked(Ok(())),
                    Reply::StoredPost(Ok(parent)),
                    Reply::Comment(Ok(comment)),
                    Reply::CommentView(Ok(view)),
                ];
                &&& issued(self.begin(websocket_id), replies) == seq![
                    run(Action::Authenticate { auth: self.auth }),
                    run(Action::ReadCommentView { comment_id: self.edit_id, my_user_id: None }),
                    run(
                        Action::CheckCommunityBan {
                            user_id: user.id,
                            community_id: original.community_id,
                        },
                    ),
                    run(Action::ReadPost { post_id: original.post_id }),
                    run(Action::UpdateRead { comment_id: self.edit_id, read: self.read }),
                    run(
                        Action::ReadCommentView {
                            comment_id: self.edit_id,
                            my_user_id: Some(user.id),
                        },
                    ),
                ]
                &&& after(self.begin(websocket_id), replies) == answering::<
                    MarkCommentAsReadState<'_>,
                    CommentResponseModel,
                    E,
                >(
                    CommentResponseModel {
                        comment: view,
                        recipient_ids: Seq::empty(),
                        form_id: None,
                    },
                )
            }),
    {
        lemma_last_reply::<E>();
        reveal_with_fuel(after, 7);
        reveal_with_fuel(issued, 7);
    }
}

impl<'a> MarkCommentAsReadState<'a> {
    /// After every step the request takes every reply to its command.
    pub proof fn takes_every_reply<E>(self, reply: Reply<E>)
        ensures
            listens(self.next(reply)),
    {
    }

    /// At every stage an error ends the request.
    pub proof fn errors_end_it<E>(self, reply: Reply<E>)
        ensures
            errors_are_final(reply, self.next(reply)),
    {
    }

    /// Nobody is notified, and the chat server hears nothing.
    pub proof fn strips_recipients<E>(self, reply: Reply<E>)
        ensures
            recipients_are_stripped(None, self.websocket_id, self.next(reply)),
    {
    }
}

} // verus!

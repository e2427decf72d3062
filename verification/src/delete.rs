//! Deleting a comment, and taking that back.

use crate::protocol::{
    after, ask, asking, broadcast, broadcasting, errors_are_final, fail, failing, goes_well,
    issued, lemma_goes_on, lemma_last_reply, listens, recipients_are_stripped, run, Action,
    Command, Commands, CommentActivity, CommentResponse, CommentResponseModel, CommentTurn,
    CommentTurnModel, Handler, Reply, Turn, UserOperation,
};
use crate::rows::{
    ApiError, Comment, CommentView, ConnectionId, Failure, MentionData, Post, User,
};
use vstd::prelude::*;

verus! {

/// A request by its author to delete a comment, or to bring it back.
#[derive(Debug, PartialEq, Eq)]
pub struct DeleteComment {
    pub edit_id: i32,
    pub deleted: bool,
    pub auth: String,
}

/// A [`DeleteComment`] that waits for a reply.
#[derive(Debug, PartialEq, Eq)]
pub struct DeleteCommentState<'a> {
    pub request: &'a DeleteComment,
    pub websocket_id: Option<ConnectionId>,
    pub stage: DeleteStage,
}

/// What a [`DeleteComment`] waits for, and what it has learned so far.
#[derive(Debug, PartialEq, Eq)]
pub enum DeleteStage {
    User,
    Original { user: User },
    Ban { user: User, original: CommentView },
    Update { user: User },
    Announce { user: User, comment: Comment },
    View { user: User, comment: Comment },
    Post { user: User, comment: Comment, view: CommentView },
    Notify { view: CommentView },
}

impl DeleteComment {
    /// What other sites are told: that the comment is deleted, or that it is back.
    pub open spec fn activity(self) -> CommentActivity {
        if self.deleted {
            CommentActivity::Delete
        } else {
            CommentActivity::UndoDelete
        }
    }
}

impl DeleteComment {
    /// The first turn: the user is asked for.
    pub open spec fn begin<E>(
        &self,
        websocket_id: Option<ConnectionId>,
    ) -> CommentTurnModel<DeleteCommentState<'_>, CommentResponseModel, E> {
        asking(
            DeleteCommentState { request: self, websocket_id, stage: DeleteStage::User },
            Action::Authenticate { auth: self.auth },
        )
    }

    /// Begins the request.
    pub fn perform<E>(&self, websocket_id: Option<ConnectionId>) -> (turn: CommentTurn<
        DeleteCommentState<'_>,
        CommentResponse,
        E,
    >)
        ensures
            turn.model() == self.begin::<E>(websocket_id),
    {
        ask(
            DeleteCommentState { request: self, websocket_id, stage: DeleteStage::User },
            Action::Authenticate { auth: self.auth.clone() },
        )
    }
}

impl<'a> DeleteCommentState<'a> {
    /// The same request, at another stage.
    pub open spec fn at(self, stage: DeleteStage) -> DeleteCommentState<'a> {
        DeleteCommentState { request: self.request, websocket_id: self.websocket_id, stage }
    }

    fn wait<E>(
        request: &'a DeleteComment,
        websocket_id: Option<ConnectionId>,
        stage: DeleteStage,
        action: Action,
    ) -> (turn: CommentTurn<Self, CommentResponse, E>)
        ensures
            turn.model() == asking::<Self, CommentResponseModel, E>(
                DeleteCommentState { request, websocket_id, stage },
                action,
            ),
    {
        ask(DeleteCommentState { request, websocket_id, stage }, action)
    }
}

impl<'a, E> Handler<E> for DeleteCommentState<'a> {
    type Response = CommentResponse;

    open spec fn next(self, reply: Reply<E>) -> CommentTurnModel<Self, CommentResponseModel, E> {
        let edit_id = self.request.edit_id;
        match (self.stage, reply) {
            (DeleteStage::User, Reply::User(Ok(user))) => asking(
                self.at(DeleteStage::Original { user }),
                Action::ReadCommentView { comment_id: edit_id, my_user_id: None },
            ),
            (DeleteStage::User, Reply::User(Err(e))) => failing(Failure::Other(e)),
            (DeleteStage::Original { user }, Reply::CommentView(Ok(original))) => asking(
                self.at(DeleteStage::Ban { user, original }),
                Action::CheckCommunityBan { user_id: user.id, community_id: original.community_id },
            ),
            (DeleteStage::Original { .. }, Reply::CommentView(Err(e))) => failing(
                Failure::Other(e.spec_inner()),
            ),
            (DeleteStage::Ban { user, original }, Reply::Checked(Ok(_))) => if user.id
                != original.creator_id {
                failing(Failure::Api(ApiError::NoCommentEditAllowed))
            } else {
                asking(
                    self.at(DeleteStage::Update { user }),
                    Action::UpdateDeleted { comment_id: edit_id, deleted: self.request.deleted },
                )
            },
            (DeleteStage::Ban { .. }, Reply::Checked(Err(e))) => failing(Failure::Other(e)),
            (DeleteStage::Update { user }, Reply::Comment(Ok(comment))) => asking(
                self.at(DeleteStage::Announce { user, comment }),
                Action::Federate { activity: self.request.activity(), comment, user },
            ),
            (DeleteStage::Update { .. }, Reply::Comment(Err(e))) => failing(
                e.spec_refusal(ApiError::CouldntUpdateComment),
            ),
            (DeleteStage::Announce { user, comment }, Reply::Checked(Ok(_))) => asking(
                self.at(DeleteStage::View { user, comment }),
                Action::ReadCommentView { comment_id: edit_id, my_user_id: Some(user.id) },
            ),
            (DeleteStage::Announce { .. }, Reply::Checked(Err(e))) => failing(Failure::Other(e)),
            (DeleteStage::View { user, comment }, Reply::CommentView(Ok(view))) => asking(
                self.at(DeleteStage::Post { user, comment, view }),
                Action::GetPost { post_id: view.post_id },
            ),
            (DeleteStage::View { .. }, Reply::CommentView(Err(e))) => failing(
                Failure::Other(e.spec_inner()),
            ),
            (DeleteStage::Post { user, comment, view }, Reply::Post(Ok(post))) => Turn::Await(
                self.at(DeleteStage::Notify { view }),
                Command::SendLocalNotifs {
                    mentions: Seq::<MentionData>::empty(),
                    comment,
                    user,
                    post,
                    do_send_email: false,
                },
            ),
            (DeleteStage::Post { .. }, Reply::Post(Err(e))) => failing(Failure::Other(e)),
            (DeleteStage::Notify { view }, Reply::Recipients(Ok(recipient_ids))) => broadcasting(
                UserOperation::DeleteComment,
                self.websocket_id,
                CommentResponseModel {
                    comment: view,
                    recipient_ids: recipient_ids@,
                    form_id: None,
                },
            ),
            (DeleteStage::Notify { .. }, Reply::Recipients(Err(e))) => failing(Failure::Other(e)),
            _ => Turn::Unexpected,
        }
    }

    fn resume(self, reply: Reply<E>) -> (turn: CommentTurn<Self, CommentResponse, E>) {
        let DeleteCommentState { request, websocket_id, stage } = self;
        let edit_id: i32 = request.edit_id;
        match (stage, reply) {
            (DeleteStage::User, Reply::User(Ok(user))) => Self::wait(
                request,
                websocket_id,
                DeleteStage::Original { user },
                Action::ReadCommentView { comment_id: edit_id, my_user_id: None },
            ),
            (DeleteStage::User, Reply::User(Err(e))) => fail(Failure::Other(e)),
            (DeleteStage::Original { user }, Reply::CommentView(Ok(original))) => {
                let action = Action::CheckCommunityBan {
                    user_id: user.id,
                    community_id: original.community_id,
                };
                Self::wait(request, websocket_id, DeleteStage::Ban { user, original }, action)
            },
            (DeleteStage::Original { .. }, Reply::CommentView(Err(e))) => fail(
                Failure::Other(e.inner()),
            ),
            (DeleteStage::Ban { user, original }, Reply::Checked(Ok(_))) => {
                // Only the creator can delete.
                if user.id != original.creator_id {
                    return fail(Failure::Api(ApiError::NoCommentEditAllowed));
                }
                Self::wait(
                    request,
                    websocket_id,
                    DeleteStage::Update { user },
                    Action::UpdateDeleted { comment_id: edit_id, deleted: request.deleted },
                )
            },
            (DeleteStage::Ban { .. }, Reply::Checked(Err(e))) => fail(Failure::Other(e)),
            (DeleteStage::Update { user }, Reply::Comment(Ok(comment))) => {
                let activity = if request.deleted {
                    CommentActivity::Delete
                } else {
                    CommentActivity::UndoDelete
                };
                let action = Action::Federate {
                    activity,
                    comment: comment.clone(),
                    user: user.clone(),
                };
                Self::wait(request, websocket_id, DeleteStage::Announce { user, comment }, action)
            },
            (DeleteStage::Update { .. }, Reply::Comment(Err(e))) => fail(
                e.refusal(ApiError::CouldntUpdateComment),
            ),
            (DeleteStage::Announce { user, comment }, Reply::Checked(Ok(_))) => {
                let my_user_id = Some(user.id);
                Self::wait(
                    request,
                    websocket_id,
                    DeleteStage::View { user, comment },
                    Action::ReadCommentView { comment_id: edit_id, my_user_id },
                )
            },
            (DeleteStage::Announce { .. }, Reply::Checked(Err(e))) => fail(Failure::Other(e)),
            (DeleteStage::View { user, comment }, Reply::CommentView(Ok(view))) => {
                let post_id: i32 = view.post_id;
                Self::wait(
                    request,
                    websocket_id,
                    DeleteStage::Post { user, comment, view },
                    Action::GetPost { post_id },
                )
            },
            (DeleteStage::View { .. }, Reply::CommentView(Err(e))) => fail(
                Failure::Other(e.inner()),
            ),
            (DeleteStage::Post { user, comment, view }, Reply::Post(Ok(post))) => {
                let mentions = Vec::new();
                let stage = DeleteStage::Notify { view };
                Turn::Await(
                    DeleteCommentState { request, websocket_id, stage },
                    Command::SendLocalNotifs {
                        mentions,
                        comment,
                        user,
                        post,
                        do_send_email: false,
                    },
                )
            },
            (DeleteStage::Post { .. }, Reply::Post(Err(e))) => fail(Failure::Other(e)),
            (DeleteStage::Notify { view }, Reply::Recipients(Ok(recipient_ids))) => broadcast(
                UserOperation::DeleteComment,
                websocket_id,
                CommentResponse { comment: view, recipient_ids, form_id: None },
            ),
            (DeleteStage::Notify { .. }, Reply::Recipients(Err(e))) => fail(Failure::Other(e)),
            _ => Turn::Unexpected,
        }
    }
}

impl DeleteComment {
    /// Whether the replies give leave to delete: the user is known, the comment is
    /// there, the user is not banned from its community, and wrote it.
    pub open spec fn leave<E>(
        self,
        replies: Seq<Reply<E>>,
        commands: Commands,
    ) -> bool {
        &&& replies.len() >= 3
        &&& replies[0] matches Reply::User(Ok(user))
        &&& replies[1] matches Reply::CommentView(Ok(original))
        &&& replies[2] matches Reply::Checked(Ok(_))
        &&& commands.len() >= 3
        &&& commands[0] == run(Action::Authenticate { auth: self.auth })
        &&& commands[1] == run(
            Action::ReadCommentView { comment_id: self.edit_id, my_user_id: None },
        )
        &&& commands[2] == run(
            Action::CheckCommunityBan { user_id: user.id, community_id: original.community_id },
        )
        &&& user.id == original.creator_id
    }

    /// The replies that lead to `stage`, and the commands that were given by then.
    spec fn reached<E>(
        self,
        stage: DeleteStage,
        replies: Seq<Reply<E>>,
        commands: Commands,
    ) -> bool {
        match stage {
            DeleteStage::User => {
                &&& replies.len() == 0
                &&& commands.len() == 1
                &&& commands[0] == run(Action::Authenticate { auth: self.auth })
            },
            DeleteStage::Original { user } => {
                &&& replies.len() == 1
                &&& commands.len() == 2
                &&& commands[0] == run(Action::Authenticate { auth: self.auth })
                &&& commands[1] == run(
                    Action::ReadCommentView { comment_id: self.edit_id, my_user_id: None },
                )
                &&& replies[0] == Reply::<E>::User(Ok(user))
            },
            DeleteStage::Ban { user, original } => {
                &&& replies.len() == 2
                &&& replies[0] == Reply::<E>::User(Ok(user))
                &&& replies[1] == Reply::<E>::CommentView(Ok(original))
                &&& commands.len() == 3
                &&& commands[0] == run(Action::Authenticate { auth: self.auth })
                &&& commands[1] == run(
                    Action::ReadCommentView { comment_id: self.edit_id, my_user_id: None },
                )
                &&& commands[2] == run(
                    Action::CheckCommunityBan {
                        user_id: user.id,
                        community_id: original.community_id,
                    },
                )
            },
            DeleteStage::Update { .. } => replies.len() == 3 && self.leave(replies, commands),
            DeleteStage::Announce { .. } => replies.len() == 4 && self.leave(replies, commands),
            DeleteStage::View { .. } => replies.len() == 5 && self.leave(replies, commands),
            DeleteStage::Post { .. } => replies.len() == 6 && self.leave(replies, commands),
            DeleteStage::Notify { .. } => replies.len() == 7 && self.leave(replies, commands),
        }
    }

    proof fn lemma_reached<E>(&self, websocket_id: Option<ConnectionId>, replies: Seq<Reply<E>>)
        ensures
            after(self.begin(websocket_id), replies) matches Turn::Await(state, _) ==> {
                &&& state.request == self
                &&& state.websocket_id == websocket_id
                &&& self.reached(state.stage, replies, issued(self.begin(websocket_id), replies))
            },
        decreases replies.len(),
    {
        if replies.len() > 0 {
            self.lemma_reached(websocket_id, replies.drop_last());
        }
    }

    /// Nothing is stored and nothing is sent without leave.
    pub proof fn changes_need_leave<E>(
        &self,
        websocket_id: Option<ConnectionId>,
        replies: Seq<Reply<E>>,
    )
        ensures
            after(self.begin(websocket_id), replies) matches Turn::Await(_, command)
                && command.changes() ==> self.leave(
                replies,
                issued(self.begin(websocket_id), replies),
            ),
    {
        self.lemma_reached(websocket_id, replies);
        if replies.len() > 0 {
            self.lemma_reached(websocket_id, replies.drop_last());
        }
    }

    /// A request ends within a fixed number of replies.
    pub proof fn ends<E>(&self, websocket_id: Option<ConnectionId>, replies: Seq<Reply<E>>)
        ensures
            replies.len() >= 8 ==> !(after(self.begin(websocket_id), replies) is Await),
    {
        self.lemma_reached(websocket_id, replies);
    }

    /// A request whose replies all answer its commands goes well: it finishes with
    /// an answer or a failure.
    pub proof fn finishes<E>(&self, websocket_id: Option<ConnectionId>, replies: Seq<Reply<E>>)
        ensures
            goes_well(self.begin(websocket_id), replies, 8),
    {
        let first = self.begin::<E>(websocket_id);
        assert forall|state: DeleteCommentState<'_>, reply: Reply<E>| listens(
            #[trigger] state.next(reply),
        ) by {
            state.takes_every_reply(reply);
        }
        lemma_goes_on(first, replies);
        self.ends(websocket_id, replies);
        if replies.len() > 0 {
            if let Turn::Await(state, _) = after(first, replies.drop_last()) {
                state.errors_end_it(replies.last());
            }
        }
    }

    /// A user who did not write the comment is refused, and nothing is changed.
    pub proof fn strangers_are_refused<E>(
        &self,
        websocket_id: Option<ConnectionId>,
        user: User,
        original: CommentView,
    )
        requires
            user.id != original.creator_id,
        ensures
            after(
                self.begin(websocket_id),
                seq![
                    Reply::<E>::User(Ok(user)),
                    Reply::CommentView(Ok(original)),
                    Reply::Checked(Ok(())),
                ],
            ) == failing::<DeleteCommentState<'_>, CommentResponseModel, E>(
                Failure::Api(ApiError::NoCommentEditAllowed),
            ),
    {
        lemma_last_reply::<E>();
        reveal_with_fuel(after, 4);
    }

    /// A request with leave that meets no error: these are its commands, in this
    /// order, and this is how it ends.
    pub proof fn succeeds<E>(
        &self,
        websocket_id: Option<ConnectionId>,
        user: User,
        original: CommentView,
        comment: Comment,
        view: CommentView,
        post: Post,
        recipient_ids: Vec<i32>,
    )
        requires
            user.id == original.creator_id,
        ensures
            ({
                let replies = seq![
                    Reply::<E>::User(Ok(user)),
                    Reply::CommentView(Ok(original)),
                    Reply::Checked(Ok(())),
                    Reply::Comment(Ok(comment)),
                    Reply::Checked(Ok(())),
                    Reply::CommentView(Ok(view)),
                    Reply::Post(Ok(post)),
                    Reply::Recipients(Ok(recipient_ids)),
                ];
                &&& issued(self.begin(websocket_id), replies) == seq![
                    run(Action::Authenticate { auth: self.auth }),
                    run(Action::ReadCommentView { comment_id: self.edit_id, my_user_id: None }),
                    run(
                        Action::CheckCommunityBan {
                            user_id: user.id,
                            community_id: original.community_id,
                        },
                    ),
                    run(Action::UpdateDeleted { comment_id: self.edit_id, deleted: self.deleted }),
                    run(Action::Federate { activity: self.activity(), comment, user }),
                    run(
                        Action::ReadCommentView {
                            comment_id: self.edit_id,
                            my_user_id: Some(user.id),
                        },
                    ),
                    run(Action::GetPost { post_id: view.post_id }),
                    Command::SendLocalNotifs {
                        mentions: Seq::<MentionData>::empty(),
                        comment,
                        user,
                        post,
                        do_send_email: false,
                    },
                ]
                &&& after(self.begin(websocket_id), replies) == broadcasting::<
                    DeleteCommentState<'_>,
                    E,
                >(
                    UserOperation::DeleteComment,
                    websocket_id,
                    CommentResponseModel {
                        comment: view,
                        recipient_ids: recipient_ids@,
                        form_id: None,
                    },
                )
            }),
    {
        lemma_last_reply::<E>();
        reveal_with_fuel(after, 9);
        reveal_with_fuel(issued, 9);
    }
}

impl<'a> DeleteCommentState<'a> {
    /// After every step the request takes every reply to its command.
    pub proof fn takes_every_reply<E>(self, reply: Reply<E>)
        ensures
            listens(self.next(reply)),
    {
    }

    /// At every stage an error ends the request.
    pub proof fn errors_end_it<E>(self, reply: Reply<E>)
        ensures
            errors_are_final(reply, self.next(reply)),
    {
    }

    /// The client never learns who was notified; the chat server does.
    pub proof fn strips_recipients<E>(self, reply: Reply<E>)
        ensures
            recipients_are_stripped(
                Some(UserOperation::DeleteComment),
                self.websocket_id,
                self.next(reply),
            ),
    {
    }
}

} // verus!

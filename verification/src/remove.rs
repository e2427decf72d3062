//! Removing a comment as a moderator, and taking that back.

use crate::protocol::{
    after, ask, asking, broadcast, broadcasting, errors_are_final, fail, failing, goes_well,
    issued, lemma_goes_on, lemma_last_reply, listens, recipients_are_stripped, run, Action,
    Command, Commands, CommentActivity, CommentResponse, CommentResponseModel, CommentTurn,
    CommentTurnModel, Handler, Reply, Turn, UserOperation,
};
use crate::rows::{
    ApiError, Comment, CommentView, ConnectionId, Failure, MentionData, ModRemoveCommentForm, Post,
    User,
};
use vstd::prelude::*;

verus! {

/// A request by a moderator to remove a comment, or to bring it back.
#[derive(Debug, PartialEq, Eq)]
pub struct RemoveComment {
    pub edit_id: i32,
    pub removed: bool,
    pub reason: Option<String>,
    pub auth: String,
}

/// A [`RemoveComment`] that waits for a reply.
#[derive(Debug, PartialEq, Eq)]
pub struct RemoveCommentState<'a> {
    pub request: &'a RemoveComment,
    pub websocket_id: Option<ConnectionId>,
    pub stage: RemoveStage,
}

/// What a [`RemoveComment`] waits for, and what it has learned so far.
#[derive(Debug, PartialEq, Eq)]
pub enum RemoveStage {
    User,
    Original { user: User },
    Ban { user: User, original: CommentView },
    Moderator { user: User },
    Update { user: User },
    Record { user: User, comment: Comment },
    Announce { user: User, comment: Comment },
    View { user: User, comment: Comment },
    Post { user: User, comment: Comment, view: CommentView },
    Notify { view: CommentView },
}

impl RemoveComment {
    /// What other sites are told: that the comment is removed, or that it is back.
    pub open spec fn activity(self) -> CommentActivity {
        if self.removed {
            CommentActivity::Remove
        } else {
            CommentActivity::UndoRemove
        }
    }
}

impl RemoveComment {
    /// What the moderation log is told.
    pub open spec fn log_entry(self, user: User) -> ModRemoveCommentForm {
        ModRemoveCommentForm {
            mod_user_id: user.id,
            comment_id: self.edit_id,
            removed: Some(self.removed),
            reason: self.reason,
        }
    }
}

impl RemoveComment {
    /// The first turn: the user is asked for.
    pub open spec fn begin<E>(
        &self,
        websocket_id: Option<ConnectionId>,
    ) -> CommentTurnModel<RemoveCommentState<'_>, CommentResponseModel, E> {
        asking(
            RemoveCommentState { request: self, websocket_id, stage: RemoveStage::User },
            Action::Authenticate { auth: self.auth },
        )
    }

    /// Begins the request.
    pub fn perform<E>(&self, websocket_id: Option<ConnectionId>) -> (turn: CommentTurn<
        RemoveCommentState<'_>,
        CommentResponse,
        E,
    >)
        ensures
            turn.model() == self.begin::<E>(websocket_id),
    {
        ask(
            RemoveCommentState { request: self, websocket_id, stage: RemoveStage::User },
            Action::Authenticate { auth: self.auth.clone() },
        )
    }
}

impl<'a> RemoveCommentState<'a> {
    /// The same request, at another stage.
    pub open spec fn at(self, stage: RemoveStage) -> RemoveCommentState<'a> {
        RemoveCommentState { request: self.request, websocket_id: self.websocket_id, stage }
    }

    fn wait<E>(
        request: &'a RemoveComment,
        websocket_id: Option<ConnectionId>,
        stage: RemoveStage,
        action: Action,
    ) -> (turn: CommentTurn<Self, CommentResponse, E>)
        ensures
            turn.model() == asking::<Self, CommentResponseModel, E>(
                RemoveCommentState { request, websocket_id, stage },
                action,
            ),
    {
        ask(RemoveCommentState { request, websocket_id, stage }, action)
    }
}

impl<'a, E> Handler<E> for RemoveCommentState<'a> {
    type Response = CommentResponse;

    open spec fn next(self, reply: Reply<E>) -> CommentTurnModel<Self, CommentResponseModel, E> {
        let edit_id = self.request.edit_id;
        match (self.stage, reply) {
            (RemoveStage::User, Reply::User(Ok(user))) => asking(
                self.at(RemoveStage::Original { user }),
                Action::ReadCommentView { comment_id: edit_id, my_user_id: None },
            ),
            (RemoveStage::User, Reply::User(Err(e))) => failing(Failure::Other(e)),
            (RemoveStage::Original { user }, Reply::CommentView(Ok(original))) => asking(
                self.at(RemoveStage::Ban { user, original }),
                Action::CheckCommunityBan { user_id: user.id, community_id: original.community_id },
            ),
            (RemoveStage::Original { .. }, Reply::CommentView(Err(e))) => failing(
                Failure::Other(e.spec_inner()),
            ),
            (RemoveStage::Ban { user, original }, Reply::Checked(Ok(_))) => asking(
                self.at(RemoveStage::Moderator { user }),
                Action::CheckModOrAdmin { user_id: user.id, community_id: original.community_id },
            ),
            (RemoveStage::Ban { .. }, Reply::Checked(Err(e))) => failing(Failure::Other(e)),
            (RemoveStage::Moderator { user }, Reply::Checked(Ok(_))) => asking(
                self.at(RemoveStage::Update { user }),
                Action::UpdateRemoved { comment_id: edit_id, removed: self.request.removed },
            ),
            (RemoveStage::Moderator { .. }, Reply::Checked(Err(e))) => failing(Failure::Other(e)),
            (RemoveStage::Update { user }, Reply::Comment(Ok(comment))) => asking(
                self.at(RemoveStage::Record { user, comment }),
                Action::RecordRemoval(self.request.log_entry(user)),
            ),
            (RemoveStage::Update { .. }, Reply::Comment(Err(e))) => failing(
                e.spec_refusal(ApiError::CouldntUpdateComment),
            ),
            (RemoveStage::Record { user, comment }, Reply::Stored(Ok(_))) => asking(
                self.at(RemoveStage::Announce { user, comment }),
                Action::Federate { activity: self.request.activity(), comment, user },
            ),
            (RemoveStage::Record { .. }, Reply::Stored(Err(e))) => failing(
                Failure::Other(e.spec_inner()),
            ),
            (RemoveStage::Announce { user, comment }, Reply::Checked(Ok(_))) => asking(
                self.at(RemoveStage::View { user, comment }),
                Action::ReadCommentView { comment_id: edit_id, my_user_id: Some(user.id) },
            ),
            (RemoveStage::Announce { .. }, Reply::Checked(Err(e))) => failing(Failure::Other(e)),
            (RemoveStage::View { user, comment }, Reply::CommentView(Ok(view))) => asking(
                self.at(RemoveStage::Post { user, comment, view }),
                Action::GetPost { post_id: view.post_id },
            ),
            (RemoveStage::View { .. }, Reply::CommentView(Err(e))) => failing(
                Failure::Other(e.spec_inner()),
            ),
            (RemoveStage::Post { user, comment, view }, Reply::Post(Ok(post))) => Turn::Await(
                self.at(RemoveStage::Notify { view }),
                Command::SendLocalNotifs {
                    mentions: Seq::<MentionData>::empty(),
                    comment,
                    user,
                    post,
                    do_send_email: false,
                },
            ),
            (RemoveStage::Post { .. }, Reply::Post(Err(e))) => failing(Failure::Other(e)),
            (RemoveStage::Notify { view }, Reply::Recipients(Ok(recipient_ids))) => broadcasting(
                UserOperation::RemoveComment,
                self.websocket_id,
                CommentResponseModel {
                    comment: view,
                    recipient_ids: recipient_ids@,
                    form_id: None,
                },
            ),
            (RemoveStage::Notify { .. }, Reply::Recipients(Err(e))) => failing(Failure::Other(e)),
            _ => Turn::Unexpected,
        }
    }

    fn resume(self, reply: Reply<E>) -> (turn: CommentTurn<Self, CommentResponse, E>) {
        let RemoveCommentState { request, websocket_id, stage } = self;
        let edit_id: i32 = request.edit_id;
        match (stage, reply) {
            (RemoveStage::User, Reply::User(Ok(user))) => Self::wait(
                request,
                websocket_id,
                RemoveStage::Original { user },
                Action::ReadCommentView { comment_id: edit_id, my_user_id: None },
            ),
            (RemoveStage::User, Reply::User(Err(e))) => fail(Failure::Other(e)),
            (RemoveStage::Original { user }, Reply::CommentView(Ok(original))) => {
                let action = Action::CheckCommunityBan {
                    user_id: user.id,
                    community_id: original.community_id,
                };
                Self::wait(request, websocket_id, RemoveStage::Ban { user, original }, action)
            },
            (RemoveStage::Original { .. }, Reply::CommentView(Err(e))) => fail(
                Failure::Other(e.inner()),
            ),
            (RemoveStage::Ban { user, original }, Reply::Checked(Ok(_))) => {
                // Only a moderator or an admin can remove.
                let action = Action::CheckModOrAdmin {
                    user_id: user.id,
                    community_id: original.community_id,
                };
                Self::wait(request, websocket_id, RemoveStage::Moderator { user }, action)
            },
            (RemoveStage::Ban { .. }, Reply::Checked(Err(e))) => fail(Failure::Other(e)),
            (RemoveStage::Moderator { user }, Reply::Checked(Ok(_))) => Self::wait(
                request,
                websocket_id,
                RemoveStage::Update { user },
                Action::UpdateRemoved { comment_id: edit_id, removed: request.removed },
            ),
            (RemoveStage::Moderator { .. }, Reply::Checked(Err(e))) => fail(Failure::Other(e)),
            (RemoveStage::Update { user }, Reply::Comment(Ok(comment))) => {
                let form = ModRemoveCommentForm {
                    mod_user_id: user.id,
                    comment_id: edit_id,
                    removed: Some(request.removed),
                    reason: request.reason.clone(),
                };
                Self::wait(
                    request,
                    websocket_id,
                    RemoveStage::Record { user, comment },
                    Action::RecordRemoval(form),
                )
            },
            (RemoveStage::Update { .. }, Reply::Comment(Err(e))) => fail(
                e.refusal(ApiError::CouldntUpdateComment),
            ),
            (RemoveStage::Record { user, comment }, Reply::Stored(Ok(_))) => {
                let activity = if request.removed {
                    CommentActivity::Remove
                } else {
                    CommentActivity::UndoRemove
                };
                let action = Action::Federate {
                    activity,
                    comment: comment.clone(),
                    user: user.clone(),
                };
                Self::wait(request, websocket_id, RemoveStage::Announce { user, comment }, action)
            },
            (RemoveStage::Record { .. }, Reply::Stored(Err(e))) => fail(Failure::Other(e.inner())),
            (RemoveStage::Announce { user, comment }, Reply::Checked(Ok(_))) => {
                let my_user_id = Some(user.id);
                Self::wait(
                    request,
                    websocket_id,
                    RemoveStage::View { user, comment },
                    Action::ReadCommentView { comment_id: edit_id, my_user_id },
                )
            },
            (RemoveStage::Announce { .. }, Reply::Checked(Err(e))) => fail(Failure::Other(e)),
            (RemoveStage::View { user, comment }, Reply::CommentView(Ok(view))) => {
                let post_id: i32 = view.post_id;
                Self::wait(
                    request,
                    websocket_id,
                    RemoveStage::Post { user, comment, view },
                    Action::GetPost { post_id },
                )
            },
            (RemoveStage::View { .. }, Reply::CommentView(Err(e))) => fail(
                Failure::Other(e.inner()),
            ),
            (RemoveStage::Post { user, comment, view }, Reply::Post(Ok(post))) => {
                let mentions = Vec::new();
                let stage = RemoveStage::Notify { view };
                Turn::Await(
                    RemoveCommentState { request, websocket_id, stage },
                    Command::SendLocalNotifs {
                        mentions,
                        comment,
                        user,
                        post,
                        do_send_email: false,
                    },
                )
            },
            (RemoveStage::Post { .. }, Reply::Post(Err(e))) => fail(Failure::Other(e)),
            (RemoveStage::Notify { view }, Reply::Recipients(Ok(recipient_ids))) => broadcast(
                UserOperation::RemoveComment,
                websocket_id,
                CommentResponse { comment: view, recipient_ids, form_id: None },
            ),
            (RemoveStage::Notify { .. }, Reply::Recipients(Err(e))) => fail(Failure::Other(e)),
            _ => Turn::Unexpected,
        }
    }
}

impl RemoveComment {
    /// Whether the replies give leave to remove: the user is known, the comment is
    /// there, the user is not banned from its community, and moderates it or the
    /// site.
    pub open spec fn leave<E>(
        self,
        replies: Seq<Reply<E>>,
        commands: Commands,
    ) -> bool {
        &&& replies.len() >= 4
        &&& replies[0] matches Reply::User(Ok(user))
        &&& replies[1] matches Reply::CommentView(Ok(original))
        &&& replies[2] matches Reply::Checked(Ok(_))
        &&& replies[3] matches Reply::Checked(Ok(_))
        &&& commands.len() >= 4
        &&& commands[0] == run(Action::Authenticate { auth: self.auth })
        &&& commands[1] == run(
            Action::ReadCommentView { comment_id: self.edit_id, my_user_id: None },
        )
        &&& commands[2] == run(
            Action::CheckCommunityBan { user_id: user.id, community_id: original.community_id },
        )
        &&& commands[3] == run(
            Action::CheckModOrAdmin { user_id: user.id, community_id: original.community_id },
        )
    }

    /// The replies that lead to `stage`, and the commands that were given by then.
    spec fn reached<E>(
        self,
        stage: RemoveStage,
        replies: Seq<Reply<E>>,
        commands: Commands,
    ) -> bool {
        match stage {
            RemoveStage::User => {
                &&& replies.len() == 0
                &&& commands.len() == 1
                &&& commands[0] == run(Action::Authenticate { auth: self.auth })
            },
            RemoveStage::Original { user } => {
                &&& replies.len() == 1
                &&& commands.len() == 2
                &&& commands[0] == run(Action::Authenticate { auth: self.auth })
                &&& commands[1] == run(
                    Action::ReadCommentView { comment_id: self.edit_id, my_user_id: None },
                )
                &&& replies[0] == Reply::<E>::User(Ok(user))
            },
            RemoveStage::Ban { user, original } => {
                &&& replies.len() == 2
                &&& replies[0] == Reply::<E>::User(Ok(user))
                &&& replies[1] == Reply::<E>::CommentView(Ok(original))
                &&& commands.len() == 3
                &&& commands[0] == run(Action::Authenticate { auth: self.auth })
                &&& commands[1] == run(
                    Action::ReadCommentView { comment_id: self.edit_id, my_user_id: None },
                )
                &&& commands[2] == run(
                    Action::CheckCommunityBan {
                        user_id: user.id,
                        community_id: original.community_id,
                    },
                )
            },
            RemoveStage::Moderator { user } => {
                &&& replies.len() == 3
                &&& replies[0] == Reply::<E>::User(Ok(user))
                &&& replies[1] matches Reply::CommentView(Ok(original))
                &&& replies[2] matches Reply::Checked(Ok(_))
                &&& commands.len() == 4
                &&& commands[0] == run(Action::Authenticate { auth: self.auth })
                &&& commands[1] == run(
                    Action::ReadCommentView { comment_id: self.edit_id, my_user_id: None },
                )
                &&& commands[2] == run(
                    Action::CheckCommunityBan {
                        user_id: user.id,
                        community_id: original.community_id,
                    },
                )
                &&& commands[3] == run(
                    Action::CheckModOrAdmin {
                        user_id: user.id,
                        community_id: original.community_id,
                    },
                )
            },
            RemoveStage::Update { .. } => replies.len() == 4 && self.leave(replies, commands),
            RemoveStage::Record { .. } => replies.len() == 5 && self.leave(replies, commands),
            RemoveStage::Announce { .. } => replies.len() == 6 && self.leave(replies, commands),
            RemoveStage::View { .. } => replies.len() == 7 && self.leave(replies, commands),
            RemoveStage::Post { .. } => replies.len() == 8 && self.leave(replies, commands),
            RemoveStage::Notify { .. } => replies.len() == 9 && self.leave(replies, commands),
        }
    }

    proof fn lemma_reached<E>(&self, websocket_id: Option<ConnectionId>, replies: Seq<Reply<E>>)
        ensures
            after(self.begin(websocket_id), replies) matches Turn::Await(state, _) ==> {
                &&& state.request == self
                &&& state.websocket_id == websocket_id
                &&& self.reached(state.stage, replies, issued(self.begin(websocket_id), replies))
            },
        decreases replies.len(),
    {
        if replies.len() > 0 {
            self.lemma_reached(websocket_id, replies.drop_last());
        }
    }

    /// Nothing is stored and nothing is sent without leave.
    pub proof fn changes_need_leave<E>(
        &self,
        websocket_id: Option<ConnectionId>,
        replies: Seq<Reply<E>>,
    )
        ensures
            after(self.begin(websocket_id), replies) matches Turn::Await(_, command)
                && command.changes() ==> self.leave(
                replies,
                issued(self.begin(websocket_id), replies),
            ),
    {
        self.lemma_reached(websocket_id, replies);
        if replies.len() > 0 {
            self.lemma_reached(websocket_id, replies.drop_last());
        }
    }

    /// A request ends within a fixed number of replies.
    pub proof fn ends<E>(&self, websocket_id: Option<ConnectionId>, replies: Seq<Reply<E>>)
        ensures
            replies.len() >= 10 ==> !(after(self.begin(websocket_id), replies) is Await),
    {
        self.lemma_reached(websocket_id, replies);
    }

    /// A request whose replies all answer its commands goes well: it finishes with
    /// an answer or a failure.
    pub proof fn finishes<E>(&self, websocket_id: Option<ConnectionId>, replies: Seq<Reply<E>>)
        ensures
            goes_well(self.begin(websocket_id), replies, 10),
    {
        let first = self.begin::<E>(websocket_id);
        assert forall|state: RemoveCommentState<'_>, reply: Reply<E>| listens(
            #[trigger] state.next(reply),
        ) by {
            state.takes_every_reply(reply);
        }
        lemma_goes_on(first, replies);
        self.ends(websocket_id, replies);
        if replies.len() > 0 {
            if let Turn::Await(state, _) = after(first, replies.drop_last()) {
                state.errors_end_it(replies.last());
            }
        }
    }

    /// A request with leave that meets no error: these are its commands, in this
    /// order, and this is how it ends.
    pub proof fn succeeds<E>(
        &self,
        websocket_id: Option<ConnectionId>,
        user: User,
        original: CommentView,
        comment: Comment,
        view: CommentView,
        post: Post,
        recipient_ids: Vec<i32>,
    )
        ensures
            ({
                let replies = seq![
                    Reply::<E>::User(Ok(user)),
                    Reply::CommentView(Ok(original)),
                    Reply::Checked(Ok(())),
                    Reply::Checked(Ok(())),
                    Reply::Comment(Ok(comment)),
                    Reply::Stored(Ok(())),
                    Reply::Checked(Ok(())),
                    Reply::CommentView(Ok(view)),
                    Reply::Post(Ok(post)),
                    Reply::Recipients(Ok(recipient_ids)),
                ];
                &&& issued(self.begin(websocket_id), replies) == seq![
                    run(Action::Authenticate { auth: self.auth }),
                    run(Action::ReadCommentView { comment_id: self.edit_id, my_user_id: None }),
                    run(
                        Action::CheckCommunityBan {
                            user_id: user.id,
                            community_id: original.community_id,
                        },
                    ),
                    run(
                        Action::CheckModOrAdmin {
                            user_id: user.id,
                            community_id: original.community_id,
                        },
                    ),
                    run(Action::UpdateRemoved { comment_id: self.edit_id, removed: self.removed }),
                    run(Action::RecordRemoval(self.log_entry(user))),
                    run(Action::Federate { activity: self.activity(), comment, user }),
                    run(
                        Action::ReadCommentView {
                            comment_id: self.edit_id,
                            my_user_id: Some(user.id),
                        },
                    ),
                    run(Action::GetPost { post_id: view.post_id }),
                    Command::SendLocalNotifs {
                        mentions: Seq::<MentionData>::empty(),
                        comment,
                        user,
                        post,
                        do_send_email: false,
                    },
                ]
                &&& after(self.begin(websocket_id), replies) == broadcasting::<
                    RemoveCommentState<'_>,
                    E,
                >(
                    UserOperation::RemoveComment,
                    websocket_id,
                    CommentResponseModel {
                        comment: view,
                        recipient_ids: recipient_ids@,
                        form_id: None,
                    },
                )
            }),
    {
        lemma_last_reply::<E>();
        reveal_with_fuel(after, 11);
        reveal_with_fuel(issued, 11);
    }
}

impl<'a> RemoveCommentState<'a> {
    /// After every step the request takes every reply to its command.
    pub proof fn takes_every_reply<E>(self, reply: Reply<E>)
        ensures
            listens(self.next(reply)),
    {
    }

    /// At every stage an error ends the request.
    pub proof fn errors_end_it<E>(self, reply: Reply<E>)
        ensures
            errors_are_final(reply, self.next(reply)),
    {
    }

    /// The client never learns who was notified; the chat server does.
    pub proof fn strips_recipients<E>(self, reply: Reply<E>)
        ensures
            recipients_are_stripped(
                Some(UserOperation::RemoveComment),
                self.websocket_id,
                self.next(reply),
            ),
    {
    }
}

} // verus!

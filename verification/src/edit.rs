//! Changing the text of a comment.

use crate::protocol::{
    after, ask, asking, broadcast, broadcasting, errors_are_final, fail, failing, goes_well,
    issued, lemma_goes_on, lemma_last_reply, listens, recipients_are_stripped, run, Action,
    Command, Commands, CommentActivity, CommentResponse, CommentResponseModel, CommentTurn,
    CommentTurnModel, Handler, Reply, Turn, UserOperation,
};
use crate::rows::{
    ApiError, Comment, CommentView, ConnectionId, Failure, MentionData, Post, User,
};
use vstd::prelude::*;

verus! {

/// A request to change the text of a comment.
#[derive(Debug, PartialEq, Eq)]
pub struct EditComment {
    pub content: String,
    pub edit_id: i32,
    pub form_id: Option<String>,
    pub auth: String,
}

/// A [`EditComment`] that waits for a reply.
#[derive(Debug, PartialEq, Eq)]
pub struct EditCommentState<'a> {
    pub request: &'a EditComment,
    pub websocket_id: Option<ConnectionId>,
    pub stage: EditStage,
}

/// What an [`EditComment`] waits for, and what it has learned so far.
#[derive(Debug, PartialEq, Eq)]
pub enum EditStage {
    User,
    Original { user: User },
    Ban { user: User, original: CommentView },
    Text { user: User, post_id: i32 },
    Update { user: User, post_id: i32 },
    Announce { user: User, post_id: i32, comment: Comment },
    Post { user: User, comment: Comment },
    Mentions { user: User, comment: Comment, post: Post },
    Notify { user_id: i32 },
    View { recipient_ids: Vec<i32> },
}

impl EditComment {
    /// The first turn: the user is asked for.
    pub open spec fn begin<E>(
        &self,
        websocket_id: Option<ConnectionId>,
    ) -> CommentTurnModel<EditCommentState<'_>, CommentResponseModel, E> {
        asking(
            EditCommentState { request: self, websocket_id, stage: EditStage::User },
            Action::Authenticate { auth: self.auth },
        )
    }

    /// Begins the request.
    pub fn perform<E>(&self, websocket_id: Option<ConnectionId>) -> (turn: CommentTurn<
        EditCommentState<'_>,
        CommentResponse,
        E,
    >)
        ensures
            turn.model() == self.begin::<E>(websocket_id),
    {
        ask(
            EditCommentState { request: self, websocket_id, stage: EditStage::User },
            Action::Authenticate { auth: self.auth.clone() },
        )
    }
}

impl<'a> EditCommentState<'a> {
    /// The same request, at another stage.
    pub open spec fn at(self, stage: EditStage) -> EditCommentState<'a> {
        EditCommentState { request: self.request, websocket_id: self.websocket_id, stage }
    }

    fn wait<E>(
        request: &'a EditComment,
        websocket_id: Option<ConnectionId>,
        stage: EditStage,
        action: Action,
    ) -> (turn: CommentTurn<Self, CommentResponse, E>)
        ensures
            turn.model() == asking::<Self, CommentResponseModel, E>(
                EditCommentState { request, websocket_id, stage },
                action,
            ),
    {
        ask(EditCommentState { request, websocket_id, stage }, action)
    }
}

impl<'a, E> Handler<E> for EditCommentState<'a> {
    type Response = CommentResponse;

    open spec fn next(self, reply: Reply<E>) -> CommentTurnModel<Self, CommentResponseModel, E> {
        let edit_id = self.request.edit_id;
        match (self.stage, reply) {
            (EditStage::User, Reply::User(Ok(user))) => asking(
                self.at(EditStage::Original { user }),
                Action::ReadCommentView { comment_id: edit_id, my_user_id: None },
            ),
            (EditStage::User, Reply::User(Err(e))) => failing(Failure::Other(e)),
            (EditStage::Original { user }, Reply::CommentView(Ok(original))) => asking(
                self.at(EditStage::Ban { user, original }),
                Action::CheckCommunityBan { user_id: user.id, community_id: original.community_id },
            ),
            (EditStage::Original { .. }, Reply::CommentView(Err(e))) => failing(
                Failure::Other(e.spec_inner()),
            ),
            (EditStage::Ban { user, original }, Reply::Checked(Ok(_))) => if user.id
                != original.creator_id {
                failing(Failure::Api(ApiError::NoCommentEditAllowed))
            } else {
                asking(
                    self.at(EditStage::Text { user, post_id: original.post_id }),
                    Action::RemoveSlurs { content: self.request.content },
                )
            },
            (EditStage::Ban { .. }, Reply::Checked(Err(e))) => failing(Failure::Other(e)),
            (EditStage::Text { user, post_id }, Reply::Text(content)) => asking(
                self.at(EditStage::Update { user, post_id }),
                Action::UpdateContent { comment_id: edit_id, content },
            ),
            (EditStage::Update { user, post_id }, Reply::Comment(Ok(comment))) => asking(
                self.at(EditStage::Announce { user, post_id, comment }),
                Action::Federate { activity: CommentActivity::Update, comment, user },
            ),
            (EditStage::Update { .. }, Reply::Comment(Err(e))) => failing(
                e.spec_refusal(ApiError::CouldntUpdateComment),
            ),
            (EditStage::Announce { user, post_id, comment }, Reply::Checked(Ok(_))) => asking(
                self.at(EditStage::Post { user, comment }),
                Action::GetPost { post_id },
            ),
            (EditStage::Announce { .. }, Reply::Checked(Err(e))) => failing(Failure::Other(e)),
            (EditStage::Post { user, comment }, Reply::Post(Ok(post))) => asking(
                self.at(EditStage::Mentions { user, comment, post }),
                Action::ScrapeMentions { content: comment.content },
            ),
            (EditStage::Post { .. }, Reply::Post(Err(e))) => failing(Failure::Other(e)),
            (EditStage::Mentions { user, comment, post }, Reply::Mentions(mentions)) => Turn::Await(
                self.at(EditStage::Notify { user_id: user.id }),
                Command::SendLocalNotifs {
                    mentions: mentions@,
                    comment,
                    user,
                    post,
                    do_send_email: false,
                },
            ),
            (EditStage::Notify { user_id }, Reply::Recipients(Ok(recipient_ids))) => asking(
                self.at(EditStage::View { recipient_ids }),
                Action::ReadCommentView { comment_id: edit_id, my_user_id: Some(user_id) },
            ),
            (EditStage::Notify { .. }, Reply::Recipients(Err(e))) => failing(Failure::Other(e)),
            (EditStage::View { recipient_ids }, Reply::CommentView(Ok(comment))) => broadcasting(
                UserOperation::EditComment,
                self.websocket_id,
                CommentResponseModel {
                    comment,
                    recipient_ids: recipient_ids@,
                    form_id: self.request.form_id,
                },
            ),
            (EditStage::View { .. }, Reply::CommentView(Err(e))) => failing(
                Failure::Other(e.spec_inner()),
            ),
            _ => Turn::Unexpected,
        }
    }

    fn resume(self, reply: Reply<E>) -> (turn: CommentTurn<Self, CommentResponse, E>) {
        let EditCommentState { request, websocket_id, stage } = self;
        let edit_id: i32 = request.edit_id;
        match (stage, reply) {
            (EditStage::User, Reply::User(Ok(user))) => Self::wait(
                request,
                websocket_id,
                EditStage::Original { user },
                Action::ReadCommentView { comment_id: edit_id, my_user_id: None },
            ),
            (EditStage::User, Reply::User(Err(e))) => fail(Failure::Other(e)),
            (EditStage::Original { user }, Reply::CommentView(Ok(original))) => {
                let action = Action::CheckCommunityBan {
                    user_id: user.id,
                    community_id: original.community_id,
                };
                Self::wait(request, websocket_id, EditStage::Ban { user, original }, action)
            },
            (EditStage::Original { .. }, Reply::CommentView(Err(e))) => fail(
                Failure::Other(e.inner()),
            ),
            (EditStage::Ban { user, original }, Reply::Checked(Ok(_))) => {
                // Only the creator can edit.
                if user.id != original.creator_id {
                    return fail(Failure::Api(ApiError::NoCommentEditAllowed));
                }
                Self::wait(
                    request,
                    websocket_id,
                    EditStage::Text { user, post_id: original.post_id },
                    Action::RemoveSlurs { content: request.content.clone() },
                )
            },
            (EditStage::Ban { .. }, Reply::Checked(Err(e))) => fail(Failure::Other(e)),
            (EditStage::Text { user, post_id }, Reply::Text(content)) => Self::wait(
                request,
                websocket_id,
                EditStage::Update { user, post_id },
                Action::UpdateContent { comment_id: edit_id, content },
            ),
            (EditStage::Update { user, post_id }, Reply::Comment(Ok(comment))) => {
                let action = Action::Federate {
                    activity: CommentActivity::Update,
                    comment: comment.clone(),
                    user: user.clone(),
                };
                Self::wait(
                    request,
                    websocket_id,
                    EditStage::Announce { user, post_id, comment },
                    action,
                )
            },
            (EditStage::Update { .. }, Reply::Comment(Err(e))) => fail(
                e.refusal(ApiError::CouldntUpdateComment),
            ),
            (EditStage::Announce { user, post_id, comment }, Reply::Checked(Ok(_))) => Self::wait(
                request,
                websocket_id,
                EditStage::Post { user, comment },
                Action::GetPost { post_id },
            ),
            (EditStage::Announce { .. }, Reply::Checked(Err(e))) => fail(Failure::Other(e)),
            (EditStage::Post { user, comment }, Reply::Post(Ok(post))) => {
                let content = comment.content.clone();
                Self::wait(
                    request,
                    websocket_id,
                    EditStage::Mentions { user, comment, post },
                    Action::ScrapeMentions { content },
                )
            },
            (EditStage::Post { .. }, Reply::Post(Err(e))) => fail(Failure::Other(e)),
            (EditStage::Mentions { user, comment, post }, Reply::Mentions(mentions)) => {
                let stage = EditStage::Notify { user_id: user.id };
                Turn::Await(
                    EditCommentState { request, websocket_id, stage },
                    Command::SendLocalNotifs {
                        mentions,
                        comment,
                        user,
                        post,
                        do_send_email: false,
                    },
                )
            },
            (EditStage::Notify { user_id }, Reply::Recipients(Ok(recipient_ids))) => Self::wait(
                request,
                websocket_id,
                EditStage::View { recipient_ids },
                Action::ReadCommentView { comment_id: edit_id, my_user_id: Some(user_id) },
            ),
            (EditStage::Notify { .. }, Reply::Recipients(Err(e))) => fail(Failure::Other(e)),
            (EditStage::View { recipient_ids }, Reply::CommentView(Ok(comment))) => broadcast(
                UserOperation::EditComment,
                websocket_id,
                CommentResponse { comment, recipient_ids, form_id: request.form_id.clone() },
            ),
            (EditStage::View { .. }, Reply::CommentView(Err(e))) => fail(Failure::Other(e.inner())),
            _ => Turn::Unexpected,
        }
    }
}

impl EditComment {
    /// Whether the replies give leave to edit: the user is known, the comment is
    /// there, the user is not banned from its community, and wrote it.
    pub open spec fn leave<E>(
        self,
        replies: Seq<Reply<E>>,
        commands: Commands,
    ) -> bool {
        &&& replies.len() >= 3
        &&& replies[0] matches Reply::User(Ok(user))
        &&& replies[1] matches Reply::CommentView(Ok(original))
        &&& replies[2] matches Reply::Checked(Ok(_))
        &&& commands.len() >= 3
        &&& commands[0] == run(Action::Authenticate { auth: self.auth })
        &&& commands[1] == run(
            Action::ReadCommentView { comment_id: self.edit_id, my_user_id: None },
        )
        &&& commands[2] == run(
            Action::CheckCommunityBan { user_id: user.id, community_id: original.community_id },
        )
        &&& user.id == original.creator_id
    }

    /// The replies that lead to `stage`, and the commands that were given by then.
    spec fn reached<E>(
        self,
        stage: EditStage,
        replies: Seq<Reply<E>>,
        commands: Commands,
    ) -> bool {
        match stage {
            EditStage::User => {
                &&& replies.len() == 0
                &&& commands.len() == 1
                &&& commands[0] == run(Action::Authenticate { auth: self.auth })
            },
            EditStage::Original { user } => {
                &&& replies.len() == 1
                &&& commands.len() == 2
                &&& commands[0] == run(Action::Authenticate { auth: self.auth })
                &&& commands[1] == run(
                    Action::ReadCommentView { comment_id: self.edit_id, my_user_id: None },
                )
                &&& replies[0] == Reply::<E>::User(Ok(user))
            },
            EditStage::Ban { user, original } => {
                &&& replies.len() == 2
                &&& replies[0] == Reply::<E>::User(Ok(user))
                &&& replies[1] == Reply::<E>::CommentView(Ok(original))
                &&& commands.len() == 3
                &&& commands[0] == run(Action::Authenticate { auth: self.auth })
                &&& commands[1] == run(
                    Action::ReadCommentView { comment_id: self.edit_id, my_user_id: None },
                )
                &&& commands[2] == run(
                    Action::CheckCommunityBan {
                        user_id: user.id,
                        community_id: original.community_id,
                    },
                )
            },
            EditStage::Text { .. } => replies.len() == 3 && self.leave(replies, commands),
            EditStage::Update { .. } => replies.len() == 4 && self.leave(replies, commands),
            EditStage::Announce { .. } => replies.len() == 5 && self.leave(replies, commands),
            EditStage::Post { .. } => replies.len() == 6 && self.leave(replies, commands),
            EditStage::Mentions { .. } => replies.len() == 7 && self.leave(replies, commands),
            EditStage::Notify { .. } => replies.len() == 8 && self.leave(replies, commands),
            EditStage::View { .. } => replies.len() == 9 && self.leave(replies, commands),
        }
    }

    proof fn lemma_reached<E>(&self, websocket_id: Option<ConnectionId>, replies: Seq<Reply<E>>)
        ensures
            after(self.begin(websocket_id), replies) matches Turn::Await(state, _) ==> {
                &&& state.request == self
                &&& state.websocket_id == websocket_id
                &&& self.reached(state.stage, replies, issued(self.begin(websocket_id), replies))
            },
        decreases replies.len(),
    {
        if replies.len() > 0 {
            self.lemma_reached(websocket_id, replies.drop_last());
        }
    }

    /// Nothing is stored and nothing is sent without leave.
    pub proof fn changes_need_leave<E>(
        &self,
        websocket_id: Option<ConnectionId>,
        replies: Seq<Reply<E>>,
    )
        ensures
            after(self.begin(websocket_id), replies) matches Turn::Await(_, command)
                && command.changes() ==> self.leave(
                replies,
                issued(self.begin(websocket_id), replies),
            ),
    {
        self.lemma_reached(websocket_id, replies);
        if replies.len() > 0 {
            self.lemma_reached(websocket_id, replies.drop_last());
        }
    }

    /// A request ends within a fixed number of replies.
    pub proof fn ends<E>(&self, websocket_id: Option<ConnectionId>, replies: Seq<Reply<E>>)
        ensures
            replies.len() >= 10 ==> !(after(self.begin(websocket_id), replies) is Await),
    {
        self.lemma_reached(websocket_id, replies);
    }

    /// A request whose replies all answer its commands goes well: it finishes with
    /// an answer or a failure.
    pub proof fn finishes<E>(&self, websocket_id: Option<ConnectionId>, replies: Seq<Reply<E>>)
        ensures
            goes_well(self.begin(websocket_id), replies, 10),
    {
        let first = self.begin::<E>(websocket_id);
        assert forall|state: EditCommentState<'_>, reply: Reply<E>| listens(
            #[trigger] state.next(reply),
        ) by {
            state.takes_every_reply(reply);
        }
        lemma_goes_on(first, replies);
        self.ends(websocket_id, replies);
        if replies.len() > 0 {
            if let Turn::Await(state, _) = after(first, replies.drop_last()) {
                state.errors_end_it(replies.last());
            }
        }
    }

    /// A user who did not write the comment is refused, and nothing is changed.
    pub proof fn strangers_are_refused<E>(
        &self,
        websocket_id: Option<ConnectionId>,
        user: User,
        original: CommentView,
    )
        requires
            user.id != original.creator_id,
        ensures
            after(
                self.begin(websocket_id),
                seq![
                    Reply::<E>::User(Ok(user)),
                    Reply::CommentView(Ok(original)),
                    Reply::Checked(Ok(())),
                ],
            ) == failing::<EditCommentState<'_>, CommentResponseModel, E>(
                Failure::Api(ApiError::NoCommentEditAllowed),
            ),
    {
        lemma_last_reply::<E>();
        reveal_with_fuel(after, 4);
    }

    /// A request with leave that meets no error: these are its commands, in this
    /// order, and this is how it ends.
    pub proof fn succeeds<E>(
        &self,
        websocket_id: Option<ConnectionId>,
        user: User,
        original: CommentView,
        text: String,
        comment: Comment,
        post: Post,
        mentions: Vec<MentionData>,
        recipient_ids: Vec<i32>,
        view: CommentView,
    )
        requires
            user.id == original.creator_id,
        ensures
            ({
                let replies = seq![
                    Reply::<E>::User(Ok(user)),
                    Reply::CommentView(Ok(original)),
                    Reply::Checked(Ok(())),
                    Reply::Text(text),
                    Reply::Comment(Ok(comment)),
                    Reply::Checked(Ok(())),
                    Reply::Post(Ok(post)),
                    Reply::Mentions(mentions),
                    Reply::Recipients(Ok(recipient_ids)),
                    Reply::CommentView(Ok(view)),
                ];
                &&& issued(self.begin(websocket_id), replies) == seq![
                    run(Action::Authenticate { auth: self.auth }),
                    run(Action::ReadCommentView { comment_id: self.edit_id, my_user_id: None }),
                    run(
                        Action::CheckCommunityBan {
                            user_id: user.id,
                            community_id: original.community_id,
                        },
                    ),
                    run(Action::RemoveSlurs { content: self.content }),
                    run(Action::UpdateContent { comment_id: self.edit_id, content: text }),
                    run(Action::Federate { activity: CommentActivity::Update, comment, user }),
                    run(Action::GetPost { post_id: original.post_id }),
                    run(Action::ScrapeMentions { content: comment.content }),
                    Command::SendLocalNotifs {
                        mentions: mentions@,
                        comment,
                        user,
                        post,
                        do_send_email: false,
                    },
                    run(
                        Action::ReadCommentView {
                            comment_id: self.edit_id,
                            my_user_id: Some(user.id),
                        },
                    ),
                ]
                &&& after(self.begin(websocket_id), replies) == broadcasting::<
                    EditCommentState<'_>,
                    E,
                >(
                    UserOperation::EditComment,
                    websocket_id,
                    CommentResponseModel {
                        comment: view,
                        recipient_ids: recipient_ids@,
                        form_id: self.form_id,
                    },
                )
            }),
    {
        lemma_last_reply::<E>();
        reveal_with_fuel(after, 11);
        reveal_with_fuel(issued, 11);
    }
}

impl<'a> EditCommentState<'a> {
    /// After every step the request takes every reply to its command.
    pub proof fn takes_every_reply<E>(self, reply: Reply<E>)
        ensures
            listens(self.next(reply)),
    {
    }

    /// At every stage an error ends the request.
    pub proof fn errors_end_it<E>(self, reply: Reply<E>)
        ensures
            errors_are_final(reply, self.next(reply)),
    {
    }

    /// The client never learns who was notified; the chat server does.
    pub proof fn strips_recipients<E>(self, reply: Reply<E>)
        ensures
            recipients_are_stripped(
                Some(UserOperation::EditComment),
                self.websocket_id,
                self.next(reply),
            ),
    {
    }
}

} // verus!

//! Voting on a comment.

use crate::protocol::{
    after, ask, asking, broadcast, broadcasting, errors_are_final, fail, failing, goes_well,
    issued, lemma_goes_on, lemma_last_reply, listens, recipients_are_stripped, run, Action,
    Commands, CommentActivity, CommentResponse, CommentResponseModel, CommentTurn,
    CommentTurnModel, Handler, Reply, Turn, UserOperation,
};
use crate::rows::{
    ApiError, Comment, CommentLikeForm, CommentView, ConnectionId, Failure, Post, Site, User,
};
use vstd::prelude::*;

verus! {

/// A request to vote on a comment: up with a score of 1, down with -1. Any other
/// score takes an earlier vote back.
#[derive(Debug, PartialEq, Eq)]
pub struct CreateCommentLike {
    pub comment_id: i32,
    pub score: i16,
    pub auth: String,
}

/// A [`CreateCommentLike`] that waits for a reply.
#[derive(Debug, PartialEq, Eq)]
pub struct CreateCommentLikeState<'a> {
    pub request: &'a CreateCommentLike,
    pub websocket_id: Option<ConnectionId>,
    pub stage: LikeStage,
}

/// What a [`CreateCommentLike`] waits for, and what it has learned so far. The
/// `recipient` is the one who is to hear of the vote.
#[derive(Debug, PartialEq, Eq)]
pub enum LikeStage {
    User,
    Site { user: User },
    Original { user: User },
    Post { user: User, post_id: i32 },
    Ban { user: User, post_id: i32, post: Post },
    Comment { user: User, post_id: i32, post: Post },
    Parent { user: User, post_id: i32, comment: Comment },
    ParentUser { user: User, post_id: i32, comment: Comment },
    RemoveVote { user: User, post_id: i32, comment: Comment, recipient: Option<i32> },
    Vote { user: User, comment: Comment, recipient: Option<i32> },
    Announce { user_id: i32, recipient: Option<i32> },
    View { recipient: Option<i32> },
}

/// The recipient as a list.
pub open spec fn recipient_ids(recipient: Option<i32>) -> Seq<i32> {
    match recipient {
        Some(id) => seq![id],
        None => Seq::empty(),
    }
}

impl CreateCommentLike {
    /// Whether the request is a vote, up or down.
    pub open spec fn votes(self) -> bool {
        self.score == 1 || self.score == -1
    }

    /// The vote that `user` casts.
    pub open spec fn vote(self, user: User, post_id: i32) -> CommentLikeForm {
        CommentLikeForm {
            comment_id: self.comment_id,
            post_id,
            user_id: user.id,
            score: self.score,
        }
    }

    /// What other sites are told.
    pub open spec fn activity(self) -> CommentActivity {
        if self.score == 1 {
            CommentActivity::Like
        } else if self.score == -1 {
            CommentActivity::Dislike
        } else {
            CommentActivity::UndoLike
        }
    }
}

impl CreateCommentLike {
    /// The first turn: the user is asked for.
    pub open spec fn begin<E>(
        &self,
        websocket_id: Option<ConnectionId>,
    ) -> CommentTurnModel<CreateCommentLikeState<'_>, CommentResponseModel, E> {
        asking(
            CreateCommentLikeState { request: self, websocket_id, stage: LikeStage::User },
            Action::Authenticate { auth: self.auth },
        )
    }

    /// Begins the request.
    pub fn perform<E>(&self, websocket_id: Option<ConnectionId>) -> (turn: CommentTurn<
        CreateCommentLikeState<'_>,
        CommentResponse,
        E,
    >)
        ensures
            turn.model() == self.begin::<E>(websocket_id),
    {
        ask(
            CreateCommentLikeState { request: self, websocket_id, stage: LikeStage::User },
            Action::Authenticate { auth: self.auth.clone() },
        )
    }
}

impl<'a> CreateCommentLikeState<'a> {
    /// The same request, at another stage.
    pub open spec fn at(self, stage: LikeStage) -> CreateCommentLikeState<'a> {
        CreateCommentLikeState { request: self.request, websocket_id: self.websocket_id, stage }
    }

    fn wait<E>(
        request: &'a CreateCommentLike,
        websocket_id: Option<ConnectionId>,
        stage: LikeStage,
        action: Action,
    ) -> (turn: CommentTurn<Self, CommentResponse, E>)
        ensures
            turn.model() == asking::<Self, CommentResponseModel, E>(
                CreateCommentLikeState { request, websocket_id, stage },
                action,
            ),
    {
        ask(CreateCommentLikeState { request, websocket_id, stage }, action)
    }
}

impl<'a> CreateCommentLikeState<'a> {
    /// The turn in which the comment is looked up.
    pub open spec fn looking<E>(self, user: User) -> CommentTurnModel<
        Self,
        CommentResponseModel,
        E,
    > {
        asking(
            self.at(LikeStage::Original { user }),
            Action::ReadCommentView { comment_id: self.request.comment_id, my_user_id: None },
        )
    }

    /// The turn in which an earlier vote is taken away.
    pub open spec fn clearing<E>(
        self,
        user: User,
        post_id: i32,
        comment: Comment,
        recipient: Option<i32>,
    ) -> CommentTurnModel<Self, CommentResponseModel, E> {
        asking(
            self.at(LikeStage::RemoveVote { user, post_id, comment, recipient }),
            Action::RemoveLike { user_id: user.id, comment_id: self.request.comment_id },
        )
    }

    /// The turn in which other sites hear of the vote.
    pub open spec fn announcing<E>(
        self,
        user: User,
        comment: Comment,
        recipient: Option<i32>,
    ) -> CommentTurnModel<Self, CommentResponseModel, E> {
        asking(
            self.at(LikeStage::Announce { user_id: user.id, recipient }),
            Action::Federate { activity: self.request.activity(), comment, user },
        )
    }

    fn clear<E>(
        request: &'a CreateCommentLike,
        websocket_id: Option<ConnectionId>,
        user: User,
        post_id: i32,
        comment: Comment,
        recipient: Option<i32>,
    ) -> (turn: CommentTurn<Self, CommentResponse, E>)
        ensures
            forall|stage: LikeStage|
                turn.model() == (CreateCommentLikeState {
                    request,
                    websocket_id,
                    stage,
                }).clearing::<E>(user, post_id, comment, recipient),
    {
        let action = Action::RemoveLike { user_id: user.id, comment_id: request.comment_id };
        Self::wait(
            request,
            websocket_id,
            LikeStage::RemoveVote { user, post_id, comment, recipient },
            action,
        )
    }

    fn announce<E>(
        request: &'a CreateCommentLike,
        websocket_id: Option<ConnectionId>,
        user: User,
        comment: Comment,
        recipient: Option<i32>,
    ) -> (turn: CommentTurn<Self, CommentResponse, E>)
        ensures
            forall|stage: LikeStage|
                turn.model() == (CreateCommentLikeState {
                    request,
                    websocket_id,
                    stage,
                }).announcing::<E>(user, comment, recipient),
    {
        let activity = if request.score == 1 {
            CommentActivity::Like
        } else if request.score == -1 {
            CommentActivity::Dislike
        } else {
            CommentActivity::UndoLike
        };
        Self::wait(
            request,
            websocket_id,
            LikeStage::Announce { user_id: user.id, recipient },
            Action::Federate { activity, comment, user },
        )
    }
}

impl<'a, E> Handler<E> for CreateCommentLikeState<'a> {
    type Response = CommentResponse;

    open spec fn next(self, reply: Reply<E>) -> CommentTurnModel<Self, CommentResponseModel, E> {
        let comment_id = self.request.comment_id;
        match (self.stage, reply) {
            (LikeStage::User, Reply::User(Ok(user))) => if self.request.score == -1 {
                asking(self.at(LikeStage::Site { user }), Action::ReadSite)
            } else {
                self.looking(user)
            },
            (LikeStage::User, Reply::User(Err(e))) => failing(Failure::Other(e)),
            (LikeStage::Site { user }, Reply::Site(Ok(site))) => if !site.enable_downvotes {
                failing(Failure::Api(ApiError::DownvotesDisabled))
            } else {
                self.looking(user)
            },
            (LikeStage::Site { .. }, Reply::Site(Err(e))) => failing(
                Failure::Other(e.spec_inner()),
            ),
            (LikeStage::Original { user }, Reply::CommentView(Ok(original))) => asking(
                self.at(LikeStage::Post { user, post_id: original.post_id }),
                Action::GetPost { post_id: original.post_id },
            ),
            (LikeStage::Original { .. }, Reply::CommentView(Err(e))) => failing(
                Failure::Other(e.spec_inner()),
            ),
            (LikeStage::Post { user, post_id }, Reply::Post(Ok(post))) => asking(
                self.at(LikeStage::Ban { user, post_id, post }),
                Action::CheckCommunityBan { user_id: user.id, community_id: post.community_id },
            ),
            (LikeStage::Post { .. }, Reply::Post(Err(e))) => failing(Failure::Other(e)),
            (LikeStage::Ban { user, post_id, post }, Reply::Checked(Ok(_))) => asking(
                self.at(LikeStage::Comment { user, post_id, post }),
                Action::ReadComment { comment_id },
            ),
            (LikeStage::Ban { .. }, Reply::Checked(Err(e))) => failing(Failure::Other(e)),
            (LikeStage::Comment { user, post_id, post }, Reply::Comment(Ok(comment))) => {
                match comment.parent_id {
                    Some(parent_id) => asking(
                        self.at(LikeStage::Parent { user, post_id, comment }),
                        Action::ReadComment { comment_id: parent_id },
                    ),
                    None => self.clearing(user, post_id, comment, Some(post.creator_id)),
                }
            },
            (LikeStage::Comment { .. }, Reply::Comment(Err(e))) => failing(
                Failure::Other(e.spec_inner()),
            ),
            (LikeStage::Parent { user, post_id, comment }, Reply::Comment(Ok(parent))) => {
                if parent.creator_id != user.id {
                    asking(
                        self.at(LikeStage::ParentUser { user, post_id, comment }),
                        Action::ReadUser { user_id: parent.creator_id },
                    )
                } else {
                    self.clearing(user, post_id, comment, None)
                }
            },
            (LikeStage::Parent { .. }, Reply::Comment(Err(e))) => failing(
                Failure::Other(e.spec_inner()),
            ),
            (
                LikeStage::ParentUser { user, post_id, comment },
                Reply::StoredUser(Ok(parent_user)),
            ) => self.clearing(user, post_id, comment, Some(parent_user.id)),
            (LikeStage::ParentUser { .. }, Reply::StoredUser(Err(e))) => failing(
                Failure::Other(e.spec_inner()),
            ),
            (LikeStage::RemoveVote { user, post_id, comment, recipient }, Reply::Stored(Ok(_))) => {
                if self.request.votes() {
                    asking(
                        self.at(LikeStage::Vote { user, comment, recipient }),
                        Action::Like(self.request.vote(user, post_id)),
                    )
                } else {
                    self.announcing(user, comment, recipient)
                }
            },
            (LikeStage::RemoveVote { .. }, Reply::Stored(Err(e))) => failing(
                Failure::Other(e.spec_inner()),
            ),
            (LikeStage::Vote { user, comment, recipient }, Reply::Stored(Ok(_))) => self.announcing(
                user,
                comment,
                recipient,
            ),
            (LikeStage::Vote { .. }, Reply::Stored(Err(e))) => failing(
                e.spec_refusal(ApiError::CouldntLikeComment),
            ),
            (LikeStage::Announce { user_id, recipient }, Reply::Checked(Ok(_))) => asking(
                self.at(LikeStage::View { recipient }),
                Action::ReadCommentView { comment_id, my_user_id: Some(user_id) },
            ),
            (LikeStage::Announce { .. }, Reply::Checked(Err(e))) => failing(Failure::Other(e)),
            (LikeStage::View { recipient }, Reply::CommentView(Ok(comment))) => broadcasting(
                UserOperation::CreateCommentLike,
                self.websocket_id,
                CommentResponseModel {
                    comment,
                    recipient_ids: recipient_ids(recipient),
                    form_id: None,
                },
            ),
            (LikeStage::View { .. }, Reply::CommentView(Err(e))) => failing(
                Failure::Other(e.spec_inner()),
            ),
            _ => Turn::Unexpected,
        }
    }

    fn resume(self, reply: Reply<E>) -> (turn: CommentTurn<Self, CommentResponse, E>) {
        let CreateCommentLikeState { request, websocket_id, stage } = self;
        let comment_id: i32 = request.comment_id;
        match (stage, reply) {
            (LikeStage::User, Reply::User(Ok(user))) => {
                // A downvote needs a site that has them enabled.
                if request.score == -1 {
                    Self::wait(request, websocket_id, LikeStage::Site { user }, Action::ReadSite)
                } else {
                    Self::wait(
                        request,
                        websocket_id,
                        LikeStage::Original { user },
                        Action::ReadCommentView { comment_id, my_user_id: None },
                    )
                }
            },
            (LikeStage::User, Reply::User(Err(e))) => fail(Failure::Other(e)),
            (LikeStage::Site { user }, Reply::Site(Ok(site))) => {
                if !site.enable_downvotes {
                    return fail(Failure::Api(ApiError::DownvotesDisabled));
                }
                Self::wait(
                    request,
                    websocket_id,
                    LikeStage::Original { user },
                    Action::ReadCommentView { comment_id, my_user_id: None },
                )
            },
            (LikeStage::Site { .. }, Reply::Site(Err(e))) => fail(Failure::Other(e.inner())),
            (LikeStage::Original { user }, Reply::CommentView(Ok(original))) => {
                let post_id: i32 = original.post_id;
                Self::wait(
                    request,
                    websocket_id,
                    LikeStage::Post { user, post_id },
                    Action::GetPost { post_id },
                )
            },
            (LikeStage::Original { .. }, Reply::CommentView(Err(e))) => fail(
                Failure::Other(e.inner()),
            ),
            (LikeStage::Post { user, post_id }, Reply::Post(Ok(post))) => {
                let action = Action::CheckCommunityBan {
                    user_id: user.id,
                    community_id: post.community_id,
                };
                Self::wait(request, websocket_id, LikeStage::Ban { user, post_id, post }, action)
            },
            (LikeStage::Post { .. }, Reply::Post(Err(e))) => fail(Failure::Other(e)),
            (LikeStage::Ban { user, post_id, post }, Reply::Checked(Ok(_))) => Self::wait(
                request,
                websocket_id,
                LikeStage::Comment { user, post_id, post },
                Action::ReadComment { comment_id },
            ),
            (LikeStage::Ban { .. }, Reply::Checked(Err(e))) => fail(Failure::Other(e)),
            (LikeStage::Comment { user, post_id, post }, Reply::Comment(Ok(comment))) => {
                match comment.parent_id {
                    Some(parent_id) => Self::wait(
                        request,
                        websocket_id,
                        LikeStage::Parent { user, post_id, comment },
                        Action::ReadComment { comment_id: parent_id },
                    ),
                    None => Self::clear(
                        request,
                        websocket_id,
                        user,
                        post_id,
                        comment,
                        Some(post.creator_id),
                    ),
                }
            },
            (LikeStage::Comment { .. }, Reply::Comment(Err(e))) => fail(Failure::Other(e.inner())),
            (LikeStage::Parent { user, post_id, comment }, Reply::Comment(Ok(parent))) => {
                if parent.creator_id != user.id {
                    Self::wait(
                        request,
                        websocket_id,
                        LikeStage::ParentUser { user, post_id, comment },
                        Action::ReadUser { user_id: parent.creator_id },
                    )
                } else {
                    Self::clear(request, websocket_id, user, post_id, comment, None)
                }
            },
            (LikeStage::Parent { .. }, Reply::Comment(Err(e))) => fail(Failure::Other(e.inner())),
            (
                LikeStage::ParentUser { user, post_id, comment },
                Reply::StoredUser(Ok(parent_user)),
            ) => Self::clear(request, websocket_id, user, post_id, comment, Some(parent_user.id)),
            (LikeStage::ParentUser { .. }, Reply::StoredUser(Err(e))) => fail(
                Failure::Other(e.inner()),
            ),
            (LikeStage::RemoveVote { user, post_id, comment, recipient }, Reply::Stored(Ok(_))) => {
                // Only a score of 1 or -1 is stored.
                if request.score == 1 || request.score == -1 {
                    let form = CommentLikeForm {
                        comment_id,
                        post_id,
                        user_id: user.id,
                        score: request.score,
                    };
                    Self::wait(
                        request,
                        websocket_id,
                        LikeStage::Vote { user, comment, recipient },
                        Action::Like(form),
                    )
                } else {
                    Self::announce(request, websocket_id, user, comment, recipient)
                }
            },
            (LikeStage::RemoveVote { .. }, Reply::Stored(Err(e))) => fail(
                Failure::Other(e.inner()),
            ),
            (LikeStage::Vote { user, comment, recipient }, Reply::Stored(Ok(_))) => Self::announce(
                request,
                websocket_id,
                user,
                comment,
                recipient,
            ),
            (LikeStage::Vote { .. }, Reply::Stored(Err(e))) => fail(
                e.refusal(ApiError::CouldntLikeComment),
            ),
            (LikeStage::Announce { user_id, recipient }, Reply::Checked(Ok(_))) => Self::wait(
                request,
                websocket_id,
                LikeStage::View { recipient },
                Action::ReadCommentView { comment_id, my_user_id: Some(user_id) },
            ),
            (LikeStage::Announce { .. }, Reply::Checked(Err(e))) => fail(Failure::Other(e)),
            (LikeStage::View { recipient }, Reply::CommentView(Ok(comment))) => {
                let mut ids: Vec<i32> = Vec::new();
                if let Some(id) = recipient {
                    ids.push(id);
                }
                assert(ids@ =~= recipient_ids(recipient));
                broadcast(
                    UserOperation::CreateCommentLike,
                    websocket_id,
                    CommentResponse { comment, recipient_ids: ids, form_id: None },
                )
            },
            (LikeStage::View { .. }, Reply::CommentView(Err(e))) => fail(Failure::Other(e.inner())),
            _ => Turn::Unexpected,
        }
    }
}

/// What a vote that meets no error is told: the user who votes, the settings of
/// the site, the comment and its post, the comment that it replies to and the
/// author of that one, and the comment as it stands in the end.
pub struct LikeFacts {
    pub user: User,
    pub site: Site,
    pub original: CommentView,
    pub post: Post,
    pub comment: Comment,
    pub parent: Comment,
    pub parent_user: User,
    pub view: CommentView,
}

impl LikeFacts {
    /// Whether the author of the parent comment is somebody else than the voter.
    pub open spec fn parent_is_foreign(self) -> bool {
        self.comment.parent_id is Some && self.parent.creator_id != self.user.id
    }

    /// Who is to hear of the vote: under a post its author, under a comment the
    /// author of that comment, unless they are voting themselves.
    pub open spec fn recipient(self) -> Option<i32> {
        if self.comment.parent_id is None {
            Some(self.post.creator_id)
        } else if self.parent_is_foreign() {
            Some(self.parent_user.id)
        } else {
            None
        }
    }
}

impl CreateCommentLike {
    /// How many replies come before the comment is looked up.
    pub open spec fn head(self) -> int {
        if self.score == -1 {
            2
        } else {
            1
        }
    }

    /// Whether the replies give leave to vote: the user is known, a downvote is
    /// enabled, the comment and its post are there, and the user is not banned
    /// from its community.
    pub open spec fn leave<E>(self, replies: Seq<Reply<E>>, commands: Commands) -> bool {
        let n = self.head();
        &&& replies.len() >= n + 3
        &&& commands.len() >= n + 3
        &&& replies[0] matches Reply::User(Ok(user))
        &&& commands[0] == run(Action::Authenticate { auth: self.auth })
        &&& self.score == -1 ==> {
            &&& replies[1] matches Reply::Site(Ok(site))
            &&& commands[1] == run(Action::ReadSite)
            &&& site.enable_downvotes
        }
        &&& replies[n] matches Reply::CommentView(Ok(original))
        &&& commands[n] == run(
            Action::ReadCommentView { comment_id: self.comment_id, my_user_id: None },
        )
        &&& replies[n + 1] matches Reply::Post(Ok(post))
        &&& commands[n + 1] == run(Action::GetPost { post_id: original.post_id })
        &&& replies[n + 2] matches Reply::Checked(Ok(_))
        &&& commands[n + 2] == run(
            Action::CheckCommunityBan { user_id: user.id, community_id: post.community_id },
        )
    }

    /// The replies and commands before the comment is looked up.
    spec fn opened<E>(self, user: User, replies: Seq<Reply<E>>, commands: Commands) -> bool {
        &&& replies.len() >= self.head()
        &&& commands.len() > self.head()
        &&& replies[0] == Reply::<E>::User(Ok(user))
        &&& commands[0] == run(Action::Authenticate { auth: self.auth })
        &&& self.score == -1 ==> {
            &&& replies[1] matches Reply::Site(Ok(site))
            &&& commands[1] == run(Action::ReadSite)
            &&& site.enable_downvotes
        }
        &&& commands[self.head()] == run(
            Action::ReadCommentView { comment_id: self.comment_id, my_user_id: None },
        )
    }

    /// The replies that lead to `stage`, and the commands that were given by then.
    spec fn reached<E>(
        self,
        stage: LikeStage,
        replies: Seq<Reply<E>>,
        commands: Commands,
    ) -> bool {
        let n = self.head();
        &&& commands.len() == replies.len() + 1
        &&& match stage {
            LikeStage::User => {
                &&& replies.len() == 0
                &&& commands[0] == run(Action::Authenticate { auth: self.auth })
            },
            LikeStage::Site { user } => {
                &&& replies.len() == 1
                &&& self.score == -1
                &&& replies[0] == Reply::<E>::User(Ok(user))
                &&& commands[0] == run(Action::Authenticate { auth: self.auth })
                &&& commands[1] == run(Action::ReadSite)
            },
            LikeStage::Original { user } => {
                &&& replies.len() == n
                &&& self.opened(user, replies, commands)
            },
            LikeStage::Post { user, post_id } => {
                &&& replies.len() == n + 1
                &&& self.opened(user, replies, commands)
                &&& replies[n] matches Reply::CommentView(Ok(original))
                &&& post_id == original.post_id
                &&& commands[n + 1] == run(Action::GetPost { post_id })
            },
            LikeStage::Ban { user, post_id, post } => {
                &&& replies.len() == n + 2
                &&& self.opened(user, replies, commands)
                &&& replies[n] matches Reply::CommentView(Ok(original))
                &&& post_id == original.post_id
                &&& commands[n + 1] == run(Action::GetPost { post_id })
                &&& replies[n + 1] == Reply::<E>::Post(Ok(post))
                &&& commands[n + 2] == run(
                    Action::CheckCommunityBan { user_id: user.id, community_id: post.community_id },
                )
            },
            LikeStage::Comment { user, .. } => {
                &&& replies.len() == n + 3
                &&& self.leave(replies, commands)
                &&& replies[0] == Reply::<E>::User(Ok(user))
            },
            LikeStage::Parent { user, .. } => {
                &&& replies.len() == n + 4
                &&& self.leave(replies, commands)
                &&& replies[0] == Reply::<E>::User(Ok(user))
            },
            LikeStage::ParentUser { user, .. } => {
                &&& replies.len() == n + 5
                &&& self.leave(replies, commands)
                &&& replies[0] == Reply::<E>::User(Ok(user))
            },
            LikeStage::RemoveVote { user, .. } => {
                &&& n + 4 <= replies.len() <= n + 6
                &&& self.leave(replies, commands)
                &&& replies[0] == Reply::<E>::User(Ok(user))
                &&& commands.last() == run(
                    Action::RemoveLike { user_id: user.id, comment_id: self.comment_id },
                )
            },
            LikeStage::Vote { .. } => {
                &&& n + 5 <= replies.len() <= n + 7
                &&& self.leave(replies, commands)
            },
            LikeStage::Announce { .. } => {
                &&& n + 5 <= replies.len() <= n + 8
                &&& self.leave(replies, commands)
            },
            LikeStage::View { .. } => {
                &&& n + 6 <= replies.len() <= n + 9
                &&& self.leave(replies, commands)
            },
        }
    }

    proof fn lemma_reached<E>(&self, websocket_id: Option<ConnectionId>, replies: Seq<Reply<E>>)
        ensures
            after(self.begin(websocket_id), replies) matches Turn::Await(state, _) ==> {
                &&& state.request == self
                &&& state.websocket_id == websocket_id
                &&& self.reached(state.stage, replies, issued(self.begin(websocket_id), replies))
            },
        decreases replies.len(),
    {
        if replies.len() > 0 {
            self.lemma_reached(websocket_id, replies.drop_last());
        }
    }

    /// Nothing is stored and nothing is sent without leave.
    pub proof fn changes_need_leave<E>(
        &self,
        websocket_id: Option<ConnectionId>,
        replies: Seq<Reply<E>>,
    )
        ensures
            after(self.begin(websocket_id), replies) matches Turn::Await(_, command)
                && command.changes() ==> self.leave(
                replies,
                issued(self.begin(websocket_id), replies),
            ),
    {
        self.lemma_reached(websocket_id, replies);
        if replies.len() > 0 {
            self.lemma_reached(websocket_id, replies.drop_last());
        }
    }

    /// A request ends within a fixed number of replies.
    pub proof fn ends<E>(&self, websocket_id: Option<ConnectionId>, replies: Seq<Reply<E>>)
        ensures
            replies.len() >= 12 ==> !(after(self.begin(websocket_id), replies) is Await),
    {
        self.lemma_reached(websocket_id, replies);
    }

    /// A request whose replies all answer its commands goes well: it finishes with
    /// an answer or a failure.
    pub proof fn finishes<E>(&self, websocket_id: Option<ConnectionId>, replies: Seq<Reply<E>>)
        ensures
            goes_well(self.begin(websocket_id), replies, 12),
    {
        let first = self.begin::<E>(websocket_id);
        assert forall|state: CreateCommentLikeState<'_>, reply: Reply<E>| listens(
            #[trigger] state.next(reply),
        ) by {
            state.takes_every_reply(reply);
        }
        lemma_goes_on(first, replies);
        self.ends(websocket_id, replies);
        if replies.len() > 0 {
            if let Turn::Await(state, _) = after(first, replies.drop_last()) {
                state.errors_end_it(replies.last());
            }
        }
    }

    /// A vote is stored only where the request is one, and only after an earlier
    /// vote of the same user on the same comment has been taken away.
    pub proof fn votes_replace_votes<E>(
        &self,
        websocket_id: Option<ConnectionId>,
        replies: Seq<Reply<E>>,
        form: CommentLikeForm,
    )
        requires
            after(self.begin(websocket_id), replies) matches Turn::Await(_, command) && command
                == run(Action::Like(form)),
        ensures
            self.votes(),
            form.comment_id == self.comment_id,
            form.score == self.score,
            replies.len() >= 1,
            replies.last() matches Reply::Stored(Ok(_)),
            issued(self.begin(websocket_id), replies.drop_last()).last() == run(
                Action::RemoveLike { user_id: form.user_id, comment_id: self.comment_id },
            ),
    {
        if replies.len() > 0 {
            self.lemma_reached(websocket_id, replies.drop_last());
        }
    }

    /// A downvote is refused where the site has them disabled.
    pub proof fn downvotes_can_be_disabled<E>(
        &self,
        websocket_id: Option<ConnectionId>,
        user: User,
        site: Site,
    )
        requires
            self.score == -1,
            !site.enable_downvotes,
        ensures
            after(
                self.begin(websocket_id),
                seq![Reply::<E>::User(Ok(user)), Reply::Site(Ok(site))],
            ) == failing::<CreateCommentLikeState<'_>, CommentResponseModel, E>(
                Failure::Api(ApiError::DownvotesDisabled),
            ),
    {
        lemma_last_reply::<E>();
        reveal_with_fuel(after, 3);
    }

    /// The replies to a request that meets no error.
    pub open spec fn replies<E>(self, facts: LikeFacts) -> Seq<Reply<E>> {
        let user = seq![Reply::User(Ok(facts.user))];
        let site = if self.score == -1 {
            user.push(Reply::Site(Ok(facts.site)))
        } else {
            user
        };
        let comment = site.push(Reply::CommentView(Ok(facts.original))).push(
            Reply::Post(Ok(facts.post)),
        ).push(Reply::Checked(Ok(()))).push(Reply::Comment(Ok(facts.comment)));
        let parent = if facts.comment.parent_id is Some {
            comment.push(Reply::Comment(Ok(facts.parent)))
        } else {
            comment
        };
        let parent_user = if facts.parent_is_foreign() {
            parent.push(Reply::StoredUser(Ok(facts.parent_user)))
        } else {
            parent
        };
        let cleared = parent_user.push(Reply::Stored(Ok(())));
        let voted = if self.votes() {
            cleared.push(Reply::Stored(Ok(())))
        } else {
            cleared
        };
        voted.push(Reply::Checked(Ok(()))).push(Reply::CommentView(Ok(facts.view)))
    }

    /// The commands of a request that meets no error.
    pub open spec fn commands(self, facts: LikeFacts) -> Commands {
        let user = seq![run(Action::Authenticate { auth: self.auth })];
        let site = if self.score == -1 {
            user.push(run(Action::ReadSite))
        } else {
            user
        };
        let comment = site.push(
            run(Action::ReadCommentView { comment_id: self.comment_id, my_user_id: None }),
        ).push(run(Action::GetPost { post_id: facts.original.post_id })).push(
            run(
                Action::CheckCommunityBan {
                    user_id: facts.user.id,
                    community_id: facts.post.community_id,
                },
            ),
        ).push(run(Action::ReadComment { comment_id: self.comment_id }));
        let parent = match facts.comment.parent_id {
            Some(parent_id) => comment.push(run(Action::ReadComment { comment_id: parent_id })),
            None => comment,
        };
        let parent_user = if facts.parent_is_foreign() {
            parent.push(run(Action::ReadUser { user_id: facts.parent.creator_id }))
        } else {
            parent
        };
        let cleared = parent_user.push(
            run(Action::RemoveLike { user_id: facts.user.id, comment_id: self.comment_id }),
        );
        let voted = if self.votes() {
            cleared.push(run(Action::Like(self.vote(facts.user, facts.original.post_id))))
        } else {
            cleared
        };
        voted.push(
            run(
                Action::Federate {
                    activity: self.activity(),
                    comment: facts.comment,
                    user: facts.user,
                },
            ),
        ).push(
            run(
                Action::ReadCommentView {
                    comment_id: self.comment_id,
                    my_user_id: Some(facts.user.id),
                },
            ),
        )
    }

    /// A request with leave that meets no error: these are its commands, and this
    /// is how it ends.
    pub proof fn succeeds<E>(&self, websocket_id: Option<ConnectionId>, facts: LikeFacts)
        requires
            self.score == -1 ==> facts.site.enable_downvotes,
        ensures
            issued(self.begin(websocket_id), self.replies::<E>(facts)) == self.commands(facts),
            after(self.begin(websocket_id), self.replies::<E>(facts)) == broadcasting::<
                CreateCommentLikeState<'_>,
                E,
            >(
                UserOperation::CreateCommentLike,
                websocket_id,
                CommentResponseModel {
                    comment: facts.view,
                    recipient_ids: recipient_ids(facts.recipient()),
                    form_id: None,
                },
            ),
    {
        lemma_last_reply::<E>();
        reveal_with_fuel(after, 13);
        reveal_with_fuel(issued, 13);
    }
}

impl<'a> CreateCommentLikeState<'a> {
    /// After every step the request takes every reply to its command.
    pub proof fn takes_every_reply<E>(self, reply: Reply<E>)
        ensures
            listens(self.next(reply)),
    {
    }

    /// At every stage an error ends the request.
    pub proof fn errors_end_it<E>(self, reply: Reply<E>)
        ensures
            errors_are_final(reply, self.next(reply)),
    {
    }

    /// The client never learns who was notified; the chat server does.
    pub proof fn strips_recipients<E>(self, reply: Reply<E>)
        ensures
            recipients_are_stripped(
                Some(UserOperation::CreateCommentLike),
                self.websocket_id,
                self.next(reply),
            ),
    {
    }
}

} // verus!

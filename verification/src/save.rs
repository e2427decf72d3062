//! Keeping a comment, and letting it go.

use crate::protocol::{
    after, answer, answering, ask, asking, errors_are_final, fail, failing, goes_well, issued,
    lemma_goes_on, lemma_last_reply, listens, recipients_are_stripped, run, Action, Commands,
    CommentResponse, CommentResponseModel, CommentTurn, CommentTurnModel, Handler, Reply, Turn,
};
use crate::rows::{ApiError, CommentSavedForm, CommentView, ConnectionId, Failure, User};
use vstd::prelude::*;

verus! {

/// A request to keep a comment among one's own, or to let it go.
#[derive(Debug, PartialEq, Eq)]
pub struct SaveComment {
    pub comment_id: i32,
    pub save: bool,
    pub auth: String,
}

/// A [`SaveComment`] that waits for a reply.
#[derive(Debug, PartialEq, Eq)]
pub struct SaveCommentState<'a> {
    pub request: &'a SaveComment,
    pub websocket_id: Option<ConnectionId>,
    pub stage: SaveStage,
}

/// What a [`SaveComment`] waits for, and what it has learned so far.
#[derive(Debug, PartialEq, Eq)]
pub enum SaveStage {
    User,
    Save { user_id: i32 },
    View,
}

impl SaveComment {
    /// What is stored: the comment kept by `user`, or let go.
    pub open spec fn change(self, user: User) -> Action {
        let form = CommentSavedForm { comment_id: self.comment_id, user_id: user.id };
        if self.save {
            Action::Save(form)
        } else {
            Action::Unsave(form)
        }
    }
}

impl SaveComment {
    /// The first turn: the user is asked for.
    pub open spec fn begin<E>(
        &self,
        websocket_id: Option<ConnectionId>,
    ) -> CommentTurnModel<SaveCommentState<'_>, CommentResponseModel, E> {
        asking(
            SaveCommentState { request: self, websocket_id, stage: SaveStage::User },
            Action::Authenticate { auth: self.auth },
        )
    }

    /// Begins the request.
    pub fn perform<E>(&self, websocket_id: Option<ConnectionId>) -> (turn: CommentTurn<
        SaveCommentState<'_>,
        CommentResponse,
        E,
    >)
        ensures
            turn.model() == self.begin::<E>(websocket_id),
    {
        ask(
            SaveCommentState { request: self, websocket_id, stage: SaveStage::User },
            Action::Authenticate { auth: self.auth.clone() },
        )
    }
}

impl<'a> SaveCommentState<'a> {
    /// The same request, at another stage.
    pub open spec fn at(self, stage: SaveStage) -> SaveCommentState<'a> {
        SaveCommentState { request: self.request, websocket_id: self.websocket_id, stage }
    }

    fn wait<E>(
        request: &'a SaveComment,
        websocket_id: Option<ConnectionId>,
        stage: SaveStage,
        action: Action,
    ) -> (turn: CommentTurn<Self, CommentResponse, E>)
        ensures
            turn.model() == asking::<Self, CommentResponseModel, E>(
                SaveCommentState { request, websocket_id, stage },
                action,
            ),
    {
        ask(SaveCommentState { request, websocket_id, stage }, action)
    }
}

impl<'a, E> Handler<E> for SaveCommentState<'a> {
    type Response = CommentResponse;

    open spec fn next(self, reply: Reply<E>) -> CommentTurnModel<Self, CommentResponseModel, E> {
        match (self.stage, reply) {
            (SaveStage::User, Reply::User(Ok(user))) => asking(
                self.at(SaveStage::Save { user_id: user.id }),
                self.request.change(user),
            ),
            (SaveStage::User, Reply::User(Err(e))) => failing(Failure::Other(e)),
            (SaveStage::Save { user_id }, Reply::Stored(Ok(_))) => asking(
                self.at(SaveStage::View),
                Action::ReadCommentView {
                    comment_id: self.request.comment_id,
                    my_user_id: Some(user_id),
                },
            ),
            (SaveStage::Save { .. }, Reply::Stored(Err(e))) => failing(
                e.spec_refusal(ApiError::CouldntSaveComment),
            ),
            (SaveStage::View, Reply::CommentView(Ok(comment))) => answering(
                CommentResponseModel { comment, recipient_ids: Seq::empty(), form_id: None },
            ),
            (SaveStage::View, Reply::CommentView(Err(e))) => failing(
                Failure::Other(e.spec_inner()),
            ),
            _ => Turn::Unexpected,
        }
    }

    fn resume(self, reply: Reply<E>) -> (turn: CommentTurn<Self, CommentResponse, E>) {
        let SaveCommentState { request, websocket_id, stage } = self;
        match (stage, reply) {
            (SaveStage::User, Reply::User(Ok(user))) => {
                let form = CommentSavedForm { comment_id: request.comment_id, user_id: user.id };
                let action = if request.save {
                    Action::Save(form)
                } else {
                    Action::Unsave(form)
                };
                Self::wait(request, websocket_id, SaveStage::Save { user_id: user.id }, action)
            },
            (SaveStage::User, Reply::User(Err(e))) => fail(Failure::Other(e)),
            (SaveStage::Save { user_id }, Reply::Stored(Ok(_))) => Self::wait(
                request,
                websocket_id,
                SaveStage::View,
                Action::ReadCommentView {
                    comment_id: request.comment_id,
                    my_user_id: Some(user_id),
                },
            ),
            (SaveStage::Save { .. }, Reply::Stored(Err(e))) => fail(
                e.refusal(ApiError::CouldntSaveComment),
            ),
            (SaveStage::View, Reply::CommentView(Ok(comment))) => answer(comment),
            (SaveStage::View, Reply::CommentView(Err(e))) => fail(Failure::Other(e.inner())),
            _ => Turn::Unexpected,
        }
    }
}

impl SaveComment {
    /// Whether the replies give leave to keep the comment: the user is known.
    pub open spec fn leave<E>(self, replies: Seq<Reply<E>>, commands: Commands) -> bool {
        &&& replies.len() >= 1
        &&& replies[0] matches Reply::User(Ok(_))
        &&& commands.len() >= 1
        &&& commands[0] == run(Action::Authenticate { auth: self.auth })
    }

    /// The replies that lead to `stage`, and the commands that were given by then.
    spec fn reached<E>(
        self,
        stage: SaveStage,
        replies: Seq<Reply<E>>,
        commands: Commands,
    ) -> bool {
        match stage {
            SaveStage::User => {
                &&& replies.len() == 0
                &&& commands.len() == 1
                &&& commands[0] == run(Action::Authenticate { auth: self.auth })
            },
            SaveStage::Save { .. } => replies.len() == 1 && self.leave(replies, commands),
            SaveStage::View => replies.len() == 2 && self.leave(replies, commands),
        }
    }

    proof fn lemma_reached<E>(&self, websocket_id: Option<ConnectionId>, replies: Seq<Reply<E>>)
        ensures
            after(self.begin(websocket_id), replies) matches Turn::Await(state, _) ==> {
                &&& state.request == self
                &&& state.websocket_id == websocket_id
                &&& self.reached(state.stage, replies, issued(self.begin(websocket_id), replies))
            },
        decreases replies.len(),
    {
        if replies.len() > 0 {
            self.lemma_reached(websocket_id, replies.drop_last());
        }
    }

    /// Nothing is stored and nothing is sent without leave.
    pub proof fn changes_need_leave<E>(
        &self,
        websocket_id: Option<ConnectionId>,
        replies: Seq<Reply<E>>,
    )
        ensures
            after(self.begin(websocket_id), replies) matches Turn::Await(_, command)
                && command.changes() ==> self.leave(
                replies,
                issued(self.begin(websocket_id), replies),
            ),
    {
        self.lemma_reached(websocket_id, replies);
        if replies.len() > 0 {
            self.lemma_reached(websocket_id, replies.drop_last());
        }
    }

    /// A request ends within a fixed number of replies.
    pub proof fn ends<E>(&self, websocket_id: Option<ConnectionId>, replies: Seq<Reply<E>>)
        ensures
            replies.len() >= 3 ==> !(after(self.begin(websocket_id), replies) is Await),
    {
        self.lemma_reached(websocket_id, replies);
    }

    /// A request whose replies all answer its commands goes well: it finishes with
    /// an answer or a failure.
    pub proof fn finishes<E>(&self, websocket_id: Option<ConnectionId>, replies: Seq<Reply<E>>)
        ensures
            goes_well(self.begin(websocket_id), replies, 3),
    {
        let first = self.begin::<E>(websocket_id);
        assert forall|state: SaveCommentState<'_>, reply: Reply<E>| listens(
            #[trigger] state.next(reply),
        ) by {
            state.takes_every_reply(reply);
        }
        lemma_goes_on(first, replies);
        self.ends(websocket_id, replies);
        if replies.len() > 0 {
            if let Turn::Await(state, _) = after(first, replies.drop_last()) {
                state.errors_end_it(replies.last());
            }
        }
    }

    /// A request that meets no error: these are its commands, in this order, and
    /// this is how it ends.
    pub proof fn succeeds<E>(
        &self,
        websocket_id: Option<ConnectionId>,
        user: User,
        view: CommentView,
    )
        ensures
            ({
                let replies = seq![
                    Reply::<E>::User(Ok(user)),
                    Reply::Stored(Ok(())),
                    Reply::CommentView(Ok(view)),
                ];
                &&& issued(self.begin(websocket_id), replies) == seq![
                    run(Action::Authenticate { auth: self.auth }),
                    run(self.change(user)),
                    run(
                        Action::ReadCommentView {
                            comment_id: self.comment_id,
                            my_user_id: Some(user.id),
                        },
                    ),
                ]
                &&& after(self.begin(websocket_id), replies) == answering::<
                    SaveCommentState<'_>,
                    CommentResponseModel,
                    E,
                >(
                    CommentResponseModel {
                        comment: view,
                        recipient_ids: Seq::empty(),
                        form_id: None,
                    },
                )
            }),
    {
        lemma_last_reply::<E>();
        reveal_with_fuel(after, 4);
        reveal_with_fuel(issued, 4);
    }
}

impl<'a> SaveCommentState<'a> {
    /// After every step the request takes every reply to its command.
    pub proof fn takes_every_reply<E>(self, reply: Reply<E>)
        ensures
            listens(self.next(reply)),
    {
    }

    /// At every stage an error ends the request.
    pub proof fn errors_end_it<E>(self, reply: Reply<E>)
        ensures
            errors_are_final(reply, self.next(reply)),
    {
    }

    /// Nobody is notified, and the chat server hears nothing.
    pub proof fn strips_recipients<E>(self, reply: Reply<E>)
        ensures
            recipients_are_stripped(None, self.websocket_id, self.next(reply)),
    {
    }
}

} // verus!

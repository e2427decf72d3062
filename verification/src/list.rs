//! Listing comments.

use crate::protocol::{
    after, ask, asking, errors_are_final, fail, failing, goes_well, issued, lemma_goes_on,
    lemma_last_reply, listens, run, Action, ChatMessage, CommentResponseModel, CommentTurn,
    CommentTurnModel, Handler, Outcome, Reply, Turn,
};
use crate::rows::{
    ApiError, CommentQuery, CommentView, ConnectionId, Failure, ListingType, SortType, User,
    ALL_COMMUNITIES,
};
use vstd::prelude::*;

verus! {

/// A request to list comments: of all communities, or of one.
#[derive(Debug, PartialEq, Eq)]
pub struct GetComments {
    pub type_: String,
    pub sort: String,
    pub page: Option<i64>,
    pub limit: Option<i64>,
    pub community_id: Option<i32>,
    pub auth: Option<String>,
}

/// The comments that were found.
#[derive(Debug, PartialEq, Eq)]
pub struct GetCommentsResponse {
    pub comments: Vec<CommentView>,
}

impl View for GetCommentsResponse {
    type V = Seq<CommentView>;

    open spec fn view(&self) -> Seq<CommentView> {
        self.comments@
    }
}

/// A [`GetComments`] that waits for a reply.
#[derive(Debug, PartialEq, Eq)]
pub struct GetCommentsState<'a> {
    pub request: &'a GetComments,
    pub websocket_id: Option<ConnectionId>,
    pub stage: ListStage,
}

/// What a [`GetComments`] waits for, and what it has learned so far.
#[derive(Debug, PartialEq, Eq)]
pub enum ListStage {
    User,
    Listing { my_user_id: Option<i32> },
    Sort { my_user_id: Option<i32>, listing_type: ListingType },
    Comments,
}

/// The number of a user, if there is one.
pub open spec fn user_id(user: Option<User>) -> Option<i32> {
    match user {
        Some(user) => Some(user.id),
        None => None,
    }
}

impl GetComments {
    /// The query for the comments, as `my_user_id` sees them.
    pub open spec fn query(
        self,
        my_user_id: Option<i32>,
        listing_type: ListingType,
        sort: SortType,
    ) -> CommentQuery {
        CommentQuery {
            listing_type,
            sort,
            for_community_id: self.community_id,
            my_user_id,
            page: self.page,
            limit: self.limit,
        }
    }

    /// The room to join: that of all communities, for a client with a connection
    /// who has not asked for one of them.
    pub open spec fn room<C>(self, websocket_id: Option<ConnectionId>) -> Option<ChatMessage<C>> {
        match websocket_id {
            Some(id) => if self.community_id is None {
                Some(ChatMessage::JoinCommunityRoom { community_id: ALL_COMMUNITIES, id })
            } else {
                None
            },
            None => None,
        }
    }
}

impl GetComments {
    /// The first turn: the user is asked for, if there is one.
    pub open spec fn begin<E>(
        &self,
        websocket_id: Option<ConnectionId>,
    ) -> CommentTurnModel<GetCommentsState<'_>, Seq<CommentView>, E> {
        asking(
            GetCommentsState { request: self, websocket_id, stage: ListStage::User },
            Action::AuthenticateOptional(self.auth),
        )
    }

    /// Begins the request.
    pub fn perform<E>(&self, websocket_id: Option<ConnectionId>) -> (turn: CommentTurn<
        GetCommentsState<'_>,
        GetCommentsResponse,
        E,
    >)
        ensures
            turn.model() == self.begin::<E>(websocket_id),
    {
        ask(
            GetCommentsState { request: self, websocket_id, stage: ListStage::User },
            Action::AuthenticateOptional(self.auth.clone()),
        )
    }
}

impl<'a> GetCommentsState<'a> {
    /// The same request, at another stage.
    pub open spec fn at(self, stage: ListStage) -> GetCommentsState<'a> {
        GetCommentsState { request: self.request, websocket_id: self.websocket_id, stage }
    }

    fn wait<E>(
        request: &'a GetComments,
        websocket_id: Option<ConnectionId>,
        stage: ListStage,
        action: Action,
    ) -> (turn: CommentTurn<Self, GetCommentsResponse, E>)
        ensures
            turn.model() == asking::<Self, Seq<CommentView>, E>(
                GetCommentsState { request, websocket_id, stage },
                action,
            ),
    {
        ask(GetCommentsState { request, websocket_id, stage }, action)
    }
}

impl<'a, E> Handler<E> for GetCommentsState<'a> {
    type Response = GetCommentsResponse;

    open spec fn next(self, reply: Reply<E>) -> CommentTurnModel<Self, Seq<CommentView>, E> {
        match (self.stage, reply) {
            (ListStage::User, Reply::OptionalUser(Ok(user))) => asking(
                self.at(ListStage::Listing { my_user_id: user_id(user) }),
                Action::ParseListingType { type_: self.request.type_ },
            ),
            (ListStage::User, Reply::OptionalUser(Err(e))) => failing(Failure::Other(e)),
            (ListStage::Listing { my_user_id }, Reply::ListingType(Ok(listing_type))) => asking(
                self.at(ListStage::Sort { my_user_id, listing_type }),
                Action::ParseSortType { sort: self.request.sort },
            ),
            (ListStage::Listing { .. }, Reply::ListingType(Err(e))) => failing(Failure::Other(e)),
            (ListStage::Sort { my_user_id, listing_type }, Reply::SortType(Ok(sort))) => asking(
                self.at(ListStage::Comments),
                Action::ListComments(self.request.query(my_user_id, listing_type, sort)),
            ),
            (ListStage::Sort { .. }, Reply::SortType(Err(e))) => failing(Failure::Other(e)),
            (ListStage::Comments, Reply::CommentViews(Ok(comments))) => Turn::Finished(
                Outcome { message: self.request.room(self.websocket_id), result: Ok(comments@) },
            ),
            (ListStage::Comments, Reply::CommentViews(Err(e))) => failing(
                e.spec_refusal(ApiError::CouldntGetComments),
            ),
            _ => Turn::Unexpected,
        }
    }

    fn resume(self, reply: Reply<E>) -> (turn: CommentTurn<Self, GetCommentsResponse, E>) {
        let GetCommentsState { request, websocket_id, stage } = self;
        match (stage, reply) {
            (ListStage::User, Reply::OptionalUser(Ok(user))) => {
                let my_user_id = match user {
                    Some(user) => Some(user.id),
                    None => None,
                };
                Self::wait(
                    request,
                    websocket_id,
                    ListStage::Listing { my_user_id },
                    Action::ParseListingType { type_: request.type_.clone() },
                )
            },
            (ListStage::User, Reply::OptionalUser(Err(e))) => fail(Failure::Other(e)),
            (ListStage::Listing { my_user_id }, Reply::ListingType(Ok(listing_type))) => Self::wait(
                request,
                websocket_id,
                ListStage::Sort { my_user_id, listing_type },
                Action::ParseSortType { sort: request.sort.clone() },
            ),
            (ListStage::Listing { .. }, Reply::ListingType(Err(e))) => fail(Failure::Other(e)),
            (ListStage::Sort { my_user_id, listing_type }, Reply::SortType(Ok(sort))) => {
                let query = CommentQuery {
                    listing_type,
                    sort,
                    for_community_id: request.community_id,
                    my_user_id,
                    page: request.page,
                    limit: request.limit,
                };
                Self::wait(request, websocket_id, ListStage::Comments, Action::ListComments(query))
            },
            (ListStage::Sort { .. }, Reply::SortType(Err(e))) => fail(Failure::Other(e)),
            (ListStage::Comments, Reply::CommentViews(Ok(comments))) => {
                // The room of a single community is joined elsewhere.
                let message = match websocket_id {
                    Some(id) => if request.community_id.is_none() {
                        Some(ChatMessage::JoinCommunityRoom { community_id: ALL_COMMUNITIES, id })
                    } else {
                        None
                    },
                    None => None,
                };
                Turn::Finished(Outcome { message, result: Ok(GetCommentsResponse { comments }) })
            },
            (ListStage::Comments, Reply::CommentViews(Err(e))) => fail(
                e.refusal(ApiError::CouldntGetComments),
            ),
            _ => Turn::Unexpected,
        }
    }
}

impl GetComments {
    proof fn lemma_reached<E>(&self, websocket_id: Option<ConnectionId>, replies: Seq<Reply<E>>)
        ensures
            after(self.begin(websocket_id), replies) matches Turn::Await(state, command) ==> {
                &&& !command.changes()
                &&& state.request == self
                &&& state.websocket_id == websocket_id
                &&& match state.stage {
                    ListStage::User => replies.len() == 0,
                    ListStage::Listing { .. } => replies.len() == 1,
                    ListStage::Sort { .. } => replies.len() == 2,
                    ListStage::Comments => replies.len() == 3,
                }
            },
        decreases replies.len(),
    {
        if replies.len() > 0 {
            self.lemma_reached(websocket_id, replies.drop_last());
        }
    }

    /// Listing changes nothing.
    pub proof fn only_looks<E>(&self, websocket_id: Option<ConnectionId>, replies: Seq<Reply<E>>)
        ensures
            after(self.begin(websocket_id), replies) matches Turn::Await(_, command)
                ==> !command.changes(),
    {
        self.lemma_reached(websocket_id, replies);
    }

    /// A request ends within a fixed number of replies.
    pub proof fn ends<E>(&self, websocket_id: Option<ConnectionId>, replies: Seq<Reply<E>>)
        ensures
            replies.len() >= 4 ==> !(after(self.begin(websocket_id), replies) is Await),
    {
        self.lemma_reached(websocket_id, replies);
    }

    /// A request whose replies all answer its commands goes well: it finishes with
    /// an answer or a failure.
    pub proof fn finishes<E>(&self, websocket_id: Option<ConnectionId>, replies: Seq<Reply<E>>)
        ensures
            goes_well(self.begin(websocket_id), replies, 4),
    {
        let first = self.begin::<E>(websocket_id);
        assert forall|state: GetCommentsState<'_>, reply: Reply<E>| listens(
            #[trigger] state.next(reply),
        ) by {
            state.takes_every_reply(reply);
        }
        lemma_goes_on(first, replies);
        self.ends(websocket_id, replies);
        if replies.len() > 0 {
            if let Turn::Await(state, _) = after(first, replies.drop_last()) {
                state.errors_end_it(replies.last());
            }
        }
    }

    /// A request that meets no error: these are its commands, in this order, and
    /// this is how it ends.
    pub proof fn succeeds<E>(
        &self,
        websocket_id: Option<ConnectionId>,
        user: Option<User>,
        listing_type: ListingType,
        sort: SortType,
        comments: Vec<CommentView>,
    )
        ensures
            ({
                let replies = seq![
                    Reply::<E>::OptionalUser(Ok(user)),
                    Reply::ListingType(Ok(listing_type)),
                    Reply::SortType(Ok(sort)),
                    Reply::CommentViews(Ok(comments)),
                ];
                &&& issued(self.begin(websocket_id), replies) == seq![
                    run(Action::AuthenticateOptional(self.auth)),
                    run(Action::ParseListingType { type_: self.type_ }),
                    run(Action::ParseSortType { sort: self.sort }),
                    run(Action::ListComments(self.query(user_id(user), listing_type, sort))),
                ]
                &&& after(self.begin(websocket_id), replies) matches Turn::Finished(outcome)
                &&& outcome.result == Ok::<Seq<CommentView>, Failure<E>>(comments@)
                &&& outcome.message == self.room::<CommentResponseModel>(websocket_id)
            }),
    {
        lemma_last_reply::<E>();
        reveal_with_fuel(after, 5);
        reveal_with_fuel(issued, 5);
    }
}

impl<'a> GetCommentsState<'a> {
    /// After every step the request takes every reply to its command.
    pub proof fn takes_every_reply<E>(self, reply: Reply<E>)
        ensures
            listens(self.next(reply)),
    {
    }

    /// At every stage an error ends the request.
    pub proof fn errors_end_it<E>(self, reply: Reply<E>)
        ensures
            errors_are_final(reply, self.next(reply)),
    {
    }
}

} // verus!

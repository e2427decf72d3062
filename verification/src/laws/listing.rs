//! What listing comments comes to.

use crate::list::GetComments;
use crate::laws::{asks, refuses, stops};
use crate::protocol::{after, lemma_last_reply, Action, ChatMessage, Command, Reply, Turn};
use crate::rows::{ApiError, CommentView, ConnectionId, DbError, ListingType, SortType, User};
use vstd::prelude::*;

verus! {

/// Listing comments, step by step: the query has the community, the page and the
/// limit of the request, the listing type and the order as they were recognised,
/// and the user who asks. A client with a connection who has asked for no community
/// joins the room of them all.
pub proof fn comments_are_listed<E>(
    request: &GetComments,
    websocket_id: Option<ConnectionId>,
    user: Option<User>,
    listing_type: ListingType,
    sort: SortType,
    comments: Vec<CommentView>,
    error: E,
)
    ensures
        ({
            let first = request.begin::<E>(websocket_id);
            let r0 = Seq::<Reply<E>>::empty();
            let r1 = r0.push(Reply::OptionalUser(Ok(user)));
            let r2 = r1.push(Reply::ListingType(Ok(listing_type)));
            let r3 = r2.push(Reply::SortType(Ok(sort)));
            let r4 = r3.push(Reply::CommentViews(Ok(comments)));
            &&& asks(after(first, r0), Action::AuthenticateOptional(request.auth))
            &&& stops(after(first, r0.push(Reply::OptionalUser(Err(error)))), error)
            &&& asks(after(first, r1), Action::ParseListingType { type_: request.type_ })
            &&& stops(after(first, r1.push(Reply::ListingType(Err(error)))), error)
            &&& asks(after(first, r2), Action::ParseSortType { sort: request.sort })
            &&& stops(after(first, r2.push(Reply::SortType(Err(error)))), error)
            &&& after(first, r3) matches Turn::Await(_, Command::Run(Action::ListComments(query)))
            &&& query.listing_type == listing_type
            &&& query.sort == sort
            &&& query.for_community_id == request.community_id
            &&& user matches Some(user) ==> query.my_user_id == Some(user.id)
            &&& user is None ==> query.my_user_id is None
            &&& query.page == request.page
            &&& query.limit == request.limit
            &&& stops(after(first, r3.push(Reply::CommentViews(Err(DbError::Pool(error))))), error)
            &&& refuses(
                after(first, r3.push(Reply::CommentViews(Err(DbError::Query(error))))),
                ApiError::CouldntGetComments,
            )
            &&& after(first, r4) matches Turn::Finished(outcome)
            &&& outcome.result matches Ok(found)
            &&& found == comments@
            &&& request.community_id is Some ==> outcome.message is None
            &&& websocket_id is None ==> outcome.message is None
            &&& request.community_id is None ==> (websocket_id matches Some(connection) ==> (
            outcome.message matches Some(ChatMessage::JoinCommunityRoom { community_id, id })
                && community_id == 0 && id == connection))
        }),
{
    lemma_last_reply::<E>();
}

/// The query that is run is the one that was asked for: of the community of the
/// request, if it has one, with its page and its limit, in the listing type and the
/// order that were recognised, as the user who was found sees it.
pub proof fn queried_as_asked_for<E>(
    request: &GetComments,
    websocket_id: Option<ConnectionId>,
    replies: Seq<Reply<E>>,
)
    ensures
        after(request.begin(websocket_id), replies) matches Turn::Await(
            _,
            Command::Run(Action::ListComments(query)),
        ) ==> {
            &&& replies.len() == 3
            &&& query.for_community_id == request.community_id
            &&& query.page == request.page
            &&& query.limit == request.limit
            &&& replies[0] matches Reply::OptionalUser(Ok(user))
            &&& user matches Some(user) ==> query.my_user_id == Some(user.id)
            &&& user is None ==> query.my_user_id is None
            &&& replies[1] == Reply::<E>::ListingType(Ok(query.listing_type))
            &&& replies[2] == Reply::<E>::SortType(Ok(query.sort))
        },
{
    request.ends(websocket_id, replies);
    reveal_with_fuel(after, 5);
}

} // verus!

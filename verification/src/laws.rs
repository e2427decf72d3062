//! What the requests, the notifications and the announcements are for.
//!
//! The laws here speak of whole runs in terms of what goes in and what comes out.
//! Each form, each command and each answer is written out field by field, and so
//! is the end that each reply leads to.


pub mod announcements;
pub mod creating;
pub mod deleting;
pub mod editing;
pub mod listing;
pub mod models;
pub mod notifying;
pub mod reading;
pub mod removing;
pub mod saving;
pub mod voting;

use crate::protocol::{
    Action, ChatMessage, Command, CommentResponseModel, CommentTurnModel, Turn, UserOperation,
};
use crate::rows::{ApiError, Comment, CommentView, ConnectionId, Failure, MentionData, Post, User};
use vstd::prelude::*;

verus! {

/// Whether a request waits for `action` to be run.
pub open spec fn asks<S, R, E>(turn: CommentTurnModel<S, R, E>, action: Action) -> bool {
    turn matches Turn::Await(_, command) && command == Command::<Seq<MentionData>>::Run(action)
}

/// Whether a request waits for notifications about `comment` by `user` under
/// `post`.
pub open spec fn notifies<S, R, E>(
    turn: CommentTurnModel<S, R, E>,
    mentions: Seq<MentionData>,
    comment: Comment,
    user: User,
    post: Post,
    do_send_email: bool,
) -> bool {
    turn matches Turn::Await(_, command) && command == (Command::SendLocalNotifs {
        mentions,
        comment,
        user,
        post,
        do_send_email,
    })
}

/// Whether a request has failed with an error of the surroundings, and nobody was
/// told.
pub open spec fn stops<S, R, E>(turn: CommentTurnModel<S, R, E>, error: E) -> bool {
    &&& turn matches Turn::Finished(outcome)
    &&& outcome.message is None
    &&& outcome.result == Err::<R, Failure<E>>(Failure::Other(error))
}

/// Whether a request has been refused, and nobody was told.
pub open spec fn refuses<S, R, E>(turn: CommentTurnModel<S, R, E>, refusal: ApiError) -> bool {
    &&& turn matches Turn::Finished(outcome)
    &&& outcome.message is None
    &&& outcome.result == Err::<R, Failure<E>>(Failure::Api(refusal))
}

/// Whether a request has answered with a comment, and the chat server was told
/// nothing.
pub open spec fn replies_with<S, E>(
    turn: CommentTurnModel<S, CommentResponseModel, E>,
    comment: CommentView,
) -> bool {
    &&& turn matches Turn::Finished(outcome)
    &&& outcome.message is None
    &&& outcome.result matches Ok(response)
    &&& response.comment == comment
    &&& response.recipient_ids == Seq::<i32>::empty()
    &&& response.form_id is None
}

/// Whether a request has answered with a comment, and the chat server was told of
/// it too, together with those who are to hear of it.
pub open spec fn tells<S, E>(
    turn: CommentTurnModel<S, CommentResponseModel, E>,
    op: UserOperation,
    websocket_id: Option<ConnectionId>,
    comment: CommentView,
    recipient_ids: Seq<i32>,
    form_id: Option<String>,
) -> bool {
    &&& turn matches Turn::Finished(outcome)
    &&& outcome.message matches Some(
        ChatMessage::SendComment { op: told_op, comment: told, websocket_id: told_id },
    )
    &&& told_op == op
    &&& told_id == websocket_id
    &&& told.comment == comment
    &&& told.recipient_ids == recipient_ids
    &&& told.form_id == form_id
    &&& outcome.result matches Ok(response)
    &&& response.comment == comment
    &&& response.recipient_ids == Seq::<i32>::empty()
    &&& response.form_id == form_id
}

} // verus!

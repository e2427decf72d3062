//! What keeping a comment, or dropping it, comes to.

use crate::save::SaveComment;
use crate::laws::{asks, refuses, replies_with, stops};
use crate::protocol::{after, lemma_last_reply, Action, Command, Reply, Turn};
use crate::rows::{ApiError, CommentView, ConnectionId, DbError, User};
use vstd::prelude::*;

verus! {

/// Keeping a comment or dropping it, step by step: it is kept for the user who asked,
/// or no longer kept.
pub proof fn a_comment_is_saved_or_unsaved<E>(
    request: &SaveComment,
    websocket_id: Option<ConnectionId>,
    user: User,
    view: CommentView,
    error: E,
)
    ensures
        ({
            let first = request.begin::<E>(websocket_id);
            let r0 = Seq::<Reply<E>>::empty();
            let r1 = r0.push(Reply::User(Ok(user)));
            let r2 = r1.push(Reply::Stored(Ok(())));
            let r3 = r2.push(Reply::CommentView(Ok(view)));
            &&& asks(after(first, r0), Action::Authenticate { auth: request.auth })
            &&& stops(after(first, r0.push(Reply::User(Err(error)))), error)
            &&& request.save ==> (after(first, r1) matches Turn::Await(
                _,
                Command::Run(Action::Save(form)),
            ) && form.comment_id == request.comment_id && form.user_id == user.id)
            &&& !request.save ==> (after(first, r1) matches Turn::Await(
                _,
                Command::Run(Action::Unsave(form)),
            ) && form.comment_id == request.comment_id && form.user_id == user.id)
            &&& stops(after(first, r1.push(Reply::Stored(Err(DbError::Pool(error))))), error)
            &&& refuses(
                after(first, r1.push(Reply::Stored(Err(DbError::Query(error))))),
                ApiError::CouldntSaveComment,
            )
            &&& asks(
                after(first, r2),
                Action::ReadCommentView {
                    comment_id: request.comment_id,
                    my_user_id: Some(user.id),
                },
            )
            &&& stops(after(first, r2.push(Reply::CommentView(Err(DbError::Pool(error))))), error)
            &&& stops(after(first, r2.push(Reply::CommentView(Err(DbError::Query(error))))), error)
            &&& replies_with(after(first, r3), view)
        }),
{
    lemma_last_reply::<E>();
}

} // verus!

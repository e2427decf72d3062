//! What removing a comment, or putting it back, comes to.

use crate::remove::RemoveComment;
use crate::laws::{asks, notifies, refuses, stops, tells};
use crate::protocol::{
    after, lemma_last_reply, Action, Command, CommentActivity, Reply, Turn, UserOperation,
};
use crate::rows::{ApiError, Comment, CommentView, ConnectionId, DbError, MentionData, Post, User};
use vstd::prelude::*;

verus! {

/// Removing a comment or putting it back, step by step: only a moderator may, it is
/// recorded with its reason, other sites hear which of the two it was, and those
/// whom it concerns are notified, without mentions and without e-mails.
pub proof fn a_comment_is_removed_or_put_back<E>(
    request: &RemoveComment,
    websocket_id: Option<ConnectionId>,
    user: User,
    original: CommentView,
    comment: Comment,
    view: CommentView,
    post: Post,
    recipient_ids: Vec<i32>,
    error: E,
)
    ensures
        ({
            let first = request.begin::<E>(websocket_id);
            let r0 = Seq::<Reply<E>>::empty();
            let r1 = r0.push(Reply::User(Ok(user)));
            let r2 = r1.push(Reply::CommentView(Ok(original)));
            let r3 = r2.push(Reply::Checked(Ok(())));
            let r4 = r3.push(Reply::Checked(Ok(())));
            let r5 = r4.push(Reply::Comment(Ok(comment)));
            let r6 = r5.push(Reply::Stored(Ok(())));
            let r7 = r6.push(Reply::Checked(Ok(())));
            let r8 = r7.push(Reply::CommentView(Ok(view)));
            let r9 = r8.push(Reply::Post(Ok(post)));
            let r10 = r9.push(Reply::Recipients(Ok(recipient_ids)));
            &&& asks(after(first, r0), Action::Authenticate { auth: request.auth })
            &&& stops(after(first, r0.push(Reply::User(Err(error)))), error)
            &&& asks(
                after(first, r1),
                Action::ReadCommentView { comment_id: request.edit_id, my_user_id: None },
            )
            &&& stops(after(first, r1.push(Reply::CommentView(Err(DbError::Pool(error))))), error)
            &&& stops(after(first, r1.push(Reply::CommentView(Err(DbError::Query(error))))), error)
            &&& asks(
                after(first, r2),
                Action::CheckCommunityBan {
                    user_id: user.id,
                    community_id: original.community_id,
                },
            )
            &&& stops(after(first, r2.push(Reply::Checked(Err(error)))), error)
            &&& asks(
                after(first, r3),
                Action::CheckModOrAdmin { user_id: user.id, community_id: original.community_id },
            )
            &&& stops(after(first, r3.push(Reply::Checked(Err(error)))), error)
            &&& asks(
                after(first, r4),
                Action::UpdateRemoved { comment_id: request.edit_id, removed: request.removed },
            )
            &&& stops(after(first, r4.push(Reply::Comment(Err(DbError::Pool(error))))), error)
            &&& refuses(
                after(first, r4.push(Reply::Comment(Err(DbError::Query(error))))),
                ApiError::CouldntUpdateComment,
            )
            &&& after(first, r5) matches Turn::Await(_, Command::Run(Action::RecordRemoval(form)))
            &&& form.mod_user_id == user.id
            &&& form.comment_id == request.edit_id
            &&& form.removed == Some(request.removed)
            &&& form.reason == request.reason
            &&& stops(after(first, r5.push(Reply::Stored(Err(DbError::Pool(error))))), error)
            &&& stops(after(first, r5.push(Reply::Stored(Err(DbError::Query(error))))), error)
            &&& request.removed ==> asks(
                after(first, r6),
                Action::Federate { activity: CommentActivity::Remove, comment, user },
            )
            &&& !request.removed ==> asks(
                after(first, r6),
                Action::Federate { activity: CommentActivity::UndoRemove, comment, user },
            )
            &&& stops(after(first, r6.push(Reply::Checked(Err(error)))), error)
            &&& asks(
                after(first, r7),
                Action::ReadCommentView { comment_id: request.edit_id, my_user_id: Some(user.id) },
            )
            &&& stops(after(first, r7.push(Reply::CommentView(Err(DbError::Pool(error))))), error)
            &&& stops(after(first, r7.push(Reply::CommentView(Err(DbError::Query(error))))), error)
            &&& asks(after(first, r8), Action::GetPost { post_id: view.post_id })
            &&& stops(after(first, r8.push(Reply::Post(Err(error)))), error)
            &&& notifies(after(first, r9), Seq::<MentionData>::empty(), comment, user, post, false)
            &&& stops(after(first, r9.push(Reply::Recipients(Err(error)))), error)
            &&& tells(
                after(first, r10),
                UserOperation::RemoveComment,
                websocket_id,
                view,
                recipient_ids@,
                None,
            )
        }),
{
    lemma_last_reply::<E>();
}

/// Other sites are told that a comment was removed if it was, and that it was put
/// back if it was, whatever the reason.
pub proof fn other_sites_are_told<E>(
    request: &RemoveComment,
    websocket_id: Option<ConnectionId>,
    replies: Seq<Reply<E>>,
)
    ensures
        after(request.begin(websocket_id), replies) matches Turn::Await(
            _,
            Command::Run(Action::Federate { activity, .. }),
        ) ==> {
            &&& request.removed ==> activity == CommentActivity::Remove
            &&& !request.removed ==> activity == CommentActivity::UndoRemove
        },
{
    if replies.len() > 0 {
        lemma_request(request, websocket_id, replies.drop_last());
    }
}

proof fn lemma_request<E>(
    request: &RemoveComment,
    websocket_id: Option<ConnectionId>,
    replies: Seq<Reply<E>>,
)
    ensures
        after(request.begin(websocket_id), replies) matches Turn::Await(state, _) ==> state.request
            == request,
    decreases replies.len(),
{
    if replies.len() > 0 {
        lemma_request(request, websocket_id, replies.drop_last());
    }
}

} // verus!

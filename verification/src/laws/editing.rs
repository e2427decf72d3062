//! What editing a comment comes to.

use crate::edit::EditComment;
use crate::laws::{asks, notifies, refuses, stops, tells};
use crate::protocol::{after, lemma_last_reply, Action, CommentActivity, Reply, UserOperation};
use crate::rows::{ApiError, Comment, CommentView, ConnectionId, DbError, MentionData, Post, User};
use vstd::prelude::*;

verus! {

/// Editing a comment, step by step: only its creator may, what is stored is the
/// cleaned text, other sites hear of it and those whom it concerns are notified,
/// without e-mails.
pub proof fn a_comment_is_edited<E>(
    request: &EditComment,
    websocket_id: Option<ConnectionId>,
    user: User,
    original: CommentView,
    text: String,
    comment: Comment,
    post: Post,
    mentions: Vec<MentionData>,
    recipient_ids: Vec<i32>,
    view: CommentView,
    error: E,
)
    ensures
        ({
            let first = request.begin::<E>(websocket_id);
            let r0 = Seq::<Reply<E>>::empty();
            let r1 = r0.push(Reply::User(Ok(user)));
            let r2 = r1.push(Reply::CommentView(Ok(original)));
            let r3 = r2.push(Reply::Checked(Ok(())));
            let r4 = r3.push(Reply::Text(text));
            let r5 = r4.push(Reply::Comment(Ok(comment)));
            let r6 = r5.push(Reply::Checked(Ok(())));
            let r7 = r6.push(Reply::Post(Ok(post)));
            let r8 = r7.push(Reply::Mentions(mentions));
            let r9 = r8.push(Reply::Recipients(Ok(recipient_ids)));
            let r10 = r9.push(Reply::CommentView(Ok(view)));
            &&& asks(after(first, r0), Action::Authenticate { auth: request.auth })
            &&& stops(after(first, r0.push(Reply::User(Err(error)))), error)
            &&& asks(
                after(first, r1),
                Action::ReadCommentView { comment_id: request.edit_id, my_user_id: None },
            )
            &&& stops(after(first, r1.push(Reply::CommentView(Err(DbError::Pool(error))))), error)
            &&& stops(after(first, r1.push(Reply::CommentView(Err(DbError::Query(error))))), error)
            &&& asks(
                after(first, r2),
                Action::CheckCommunityBan {
                    user_id: user.id,
                    community_id: original.community_id,
                },
            )
            &&& stops(after(first, r2.push(Reply::Checked(Err(error)))), error)
            &&& user.id != original.creator_id ==> refuses(
                after(first, r3),
                ApiError::NoCommentEditAllowed,
            )
            &&& user.id == original.creator_id ==> {
                &&& asks(after(first, r3), Action::RemoveSlurs { content: request.content })
                &&& asks(
                    after(first, r4),
                    Action::UpdateContent { comment_id: request.edit_id, content: text },
                )
                &&& stops(after(first, r4.push(Reply::Comment(Err(DbError::Pool(error))))), error)
                &&& refuses(
                    after(first, r4.push(Reply::Comment(Err(DbError::Query(error))))),
                    ApiError::CouldntUpdateComment,
                )
                &&& asks(
                    after(first, r5),
                    Action::Federate { activity: CommentActivity::Update, comment, user },
                )
                &&& stops(after(first, r5.push(Reply::Checked(Err(error)))), error)
                &&& asks(after(first, r6), Action::GetPost { post_id: original.post_id })
                &&& stops(after(first, r6.push(Reply::Post(Err(error)))), error)
                &&& asks(after(first, r7), Action::ScrapeMentions { content: comment.content })
                &&& notifies(after(first, r8), mentions@, comment, user, post, false)
                &&& stops(after(first, r8.push(Reply::Recipients(Err(error)))), error)
                &&& asks(
                    after(first, r9),
                    Action::ReadCommentView {
                        comment_id: request.edit_id,
                        my_user_id: Some(user.id),
                    },
                )
                &&& stops(
                    after(first, r9.push(Reply::CommentView(Err(DbError::Pool(error))))),
                    error,
                )
                &&& stops(
                    after(first, r9.push(Reply::CommentView(Err(DbError::Query(error))))),
                    error,
                )
                &&& tells(
                    after(first, r10),
                    UserOperation::EditComment,
                    websocket_id,
                    view,
                    recipient_ids@,
                    request.form_id,
                )
            }
        }),
{
    lemma_last_reply::<E>();
}

} // verus!

//! What marking a comment as read comes to.

use crate::mark_read::MarkCommentAsRead;
use crate::laws::{asks, refuses, replies_with, stops};
use crate::protocol::{after, lemma_last_reply, Action, Reply};
use crate::rows::{ApiError, Comment, CommentView, ConnectionId, DbError, Post, User};
use vstd::prelude::*;

verus! {

/// Marking a comment as read, step by step: only the one whom it replies to may, who
/// is the author of the parent comment or, if there is none, of the post.
pub proof fn a_comment_is_marked_as_read<E>(
    request: &MarkCommentAsRead,
    websocket_id: Option<ConnectionId>,
    user: User,
    original: CommentView,
    parent: CommentView,
    post: Post,
    comment: Comment,
    view: CommentView,
    error: E,
)
    ensures
        ({
            let first = request.begin::<E>(websocket_id);
            let r0 = Seq::<Reply<E>>::empty();
            let r1 = r0.push(Reply::User(Ok(user)));
            let r2 = r1.push(Reply::CommentView(Ok(original)));
            let r3 = r2.push(Reply::Checked(Ok(())));
            let under_comment = r3.push(Reply::CommentView(Ok(parent)));
            let under_post = r3.push(Reply::StoredPost(Ok(post)));
            &&& asks(after(first, r0), Action::Authenticate { auth: request.auth })
            &&& stops(after(first, r0.push(Reply::User(Err(error)))), error)
            &&& asks(
                after(first, r1),
                Action::ReadCommentView { comment_id: request.edit_id, my_user_id: None },
            )
            &&& stops(after(first, r1.push(Reply::CommentView(Err(DbError::Pool(error))))), error)
            &&& stops(after(first, r1.push(Reply::CommentView(Err(DbError::Query(error))))), error)
            &&& asks(
                after(first, r2),
                Action::CheckCommunityBan {
                    user_id: user.id,
                    community_id: original.community_id,
                },
            )
            &&& stops(after(first, r2.push(Reply::Checked(Err(error)))), error)
            &&& match original.parent_id {
                Some(parent_id) => {
                    &&& asks(
                        after(first, r3),
                        Action::ReadCommentView { comment_id: parent_id, my_user_id: None },
                    )
                    &&& stops(
                        after(first, r3.push(Reply::CommentView(Err(DbError::Pool(error))))),
                        error,
                    )
                    &&& stops(
                        after(first, r3.push(Reply::CommentView(Err(DbError::Query(error))))),
                        error,
                    )
                    &&& user.id != parent.creator_id ==> refuses(
                        after(first, under_comment),
                        ApiError::NoCommentEditAllowed,
                    )
                    &&& user.id == parent.creator_id ==> {
                        &&& asks(
                            after(first, under_comment),
                            Action::UpdateRead { comment_id: request.edit_id, read: request.read },
                        )
                        &&& stops(
                            after(
                                first,
                                under_comment.push(Reply::Comment(Err(DbError::Pool(error)))),
                            ),
                            error,
                        )
                        &&& refuses(
                            after(
                                first,
                                under_comment.push(Reply::Comment(Err(DbError::Query(error)))),
                            ),
                            ApiError::CouldntUpdateComment,
                        )
                        &&& asks(
                            after(first, under_comment.push(Reply::Comment(Ok(comment)))),
                            Action::ReadCommentView {
                                comment_id: request.edit_id,
                                my_user_id: Some(user.id),
                            },
                        )
                        &&& stops(
                            after(
                                first,
                                under_comment.push(Reply::Comment(Ok(comment))).push(
                                    Reply::CommentView(Err(DbError::Pool(error))),
                                ),
                            ),
                            error,
                        )
                        &&& stops(
                            after(
                                first,
                                under_comment.push(Reply::Comment(Ok(comment))).push(
                                    Reply::CommentView(Err(DbError::Query(error))),
                                ),
                            ),
                            error,
                        )
                        &&& replies_with(
                            after(
                                first,
                                under_comment.push(Reply::Comment(Ok(comment))).push(
                                    Reply::CommentView(Ok(view)),
                                ),
                            ),
                            view,
                        )
                    }
                },
                None => {
                    &&& asks(after(first, r3), Action::ReadPost { post_id: original.post_id })
                    &&& stops(
                        after(first, r3.push(Reply::StoredPost(Err(DbError::Pool(error))))),
                        error,
                    )
                    &&& stops(
                        after(first, r3.push(Reply::StoredPost(Err(DbError::Query(error))))),
                        error,
                    )
                    &&& user.id != post.creator_id ==> refuses(
                        after(first, under_post),
                        ApiError::NoCommentEditAllowed,
                    )
                    &&& user.id == post.creator_id ==> {
                        &&& asks(
                            after(first, under_post),
                            Action::UpdateRead { comment_id: request.edit_id, read: request.read },
                        )
                        &&& stops(
                            after(
                                first,
                                under_post.push(Reply::Comment(Err(DbError::Pool(error)))),
                            ),
                            error,
                        )
                        &&& refuses(
                            after(
                                first,
                                under_post.push(Reply::Comment(Err(DbError::Query(error)))),
                            ),
                            ApiError::CouldntUpdateComment,
                        )
                        &&& asks(
                            after(first, under_post.push(Reply::Comment(Ok(comment)))),
                            Action::ReadCommentView {
                                comment_id: request.edit_id,
                                my_user_id: Some(user.id),
                            },
                        )
                        &&& stops(
                            after(
                                first,
                                under_post.push(Reply::Comment(Ok(comment))).push(
                                    Reply::CommentView(Err(DbError::Pool(error))),
                                ),
                            ),
                            error,
                        )
                        &&& stops(
                            after(
                                first,
                                under_post.push(Reply::Comment(Ok(comment))).push(
                                    Reply::CommentView(Err(DbError::Query(error))),
                                ),
                            ),
                            error,
                        )
                        &&& replies_with(
                            after(
                                first,
                                under_post.push(Reply::Comment(Ok(comment))).push(
                                    Reply::CommentView(Ok(view)),
                                ),
                            ),
                            view,
                        )
                    }
                },
            }
        }),
{
    lemma_last_reply::<E>();
}

} // verus!

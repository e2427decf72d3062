//! What writing a comment comes to.

use crate::create::CreateComment;
use crate::laws::{asks, notifies, refuses, stops, tells};
use crate::protocol::{
    after, lemma_last_reply, Action, Command, CommentActivity, EndpointType, Reply, Turn,
    UserOperation,
};
use crate::rows::{
    ApiError, Comment, CommentLikeForm, CommentView, ConnectionId, DbError, MentionData, Post,
    User,
};
use vstd::prelude::*;

verus! {

/// Writing a comment, step by step: who is asked for what, and how each error ends
/// the request. A post that is locked takes no comment; otherwise the comment is
/// stored as the request has it, by its author and with the cleaned text, is given
/// the address of its number, announced and notified of, and liked by its author.
#[verifier::rlimit(40)]
pub proof fn a_comment_is_written<E>(
    request: &CreateComment,
    websocket_id: Option<ConnectionId>,
    user: User,
    text: String,
    post: Post,
    inserted: Comment,
    ap_id: String,
    comment: Comment,
    mentions: Vec<MentionData>,
    recipient_ids: Vec<i32>,
    view: CommentView,
    error: E,
)
    ensures
        ({
            let first = request.begin::<E>(websocket_id);
            let r0 = Seq::<Reply<E>>::empty();
            let r1 = r0.push(Reply::User(Ok(user)));
            let r2 = r1.push(Reply::Text(text));
            let r3 = r2.push(Reply::Post(Ok(post)));
            let r4 = r3.push(Reply::Checked(Ok(())));
            let r5 = r4.push(Reply::Comment(Ok(inserted)));
            let r6 = r5.push(Reply::Address(ap_id));
            let r7 = r6.push(Reply::Comment(Ok(comment)));
            let r8 = r7.push(Reply::Checked(Ok(())));
            let r9 = r8.push(Reply::Mentions(mentions));
            let r10 = r9.push(Reply::Recipients(Ok(recipient_ids)));
            let r11 = r10.push(Reply::Stored(Ok(())));
            let r12 = r11.push(Reply::Checked(Ok(())));
            let r13 = r12.push(Reply::CommentView(Ok(view)));
            &&& asks(after(first, r0), Action::Authenticate { auth: request.auth })
            &&& stops(after(first, r0.push(Reply::User(Err(error)))), error)
            &&& asks(after(first, r1), Action::RemoveSlurs { content: request.content })
            &&& asks(after(first, r2), Action::GetPost { post_id: request.post_id })
            &&& stops(after(first, r2.push(Reply::Post(Err(error)))), error)
            &&& asks(
                after(first, r3),
                Action::CheckCommunityBan { user_id: user.id, community_id: post.community_id },
            )
            &&& stops(after(first, r3.push(Reply::Checked(Err(error)))), error)
            &&& post.locked ==> refuses(after(first, r4), ApiError::Locked)
            &&& !post.locked ==> {
                &&& after(first, r4) matches Turn::Await(
                    _,
                    Command::Run(Action::InsertComment(form)),
                )
                &&& form.content == text
                &&& form.parent_id == request.parent_id
                &&& form.post_id == request.post_id
                &&& form.creator_id == user.id
                &&& form.removed is None
                &&& form.deleted is None
                &&& form.read is None
                &&& form.published is None
                &&& form.updated is None
                &&& form.ap_id@ == "http://fake.com"@
                &&& form.local
                &&& stops(after(first, r4.push(Reply::Comment(Err(DbError::Pool(error))))), error)
                &&& refuses(
                    after(first, r4.push(Reply::Comment(Err(DbError::Query(error))))),
                    ApiError::CouldntCreateComment,
                )
                &&& asks(
                    after(first, r5),
                    Action::MakeApubEndpoint {
                        endpoint_type: EndpointType::Comment,
                        id: inserted.id,
                    },
                )
                &&& asks(after(first, r6), Action::UpdateApId { comment_id: inserted.id, ap_id })
                &&& stops(after(first, r6.push(Reply::Comment(Err(DbError::Pool(error))))), error)
                &&& refuses(
                    after(first, r6.push(Reply::Comment(Err(DbError::Query(error))))),
                    ApiError::CouldntCreateComment,
                )
                &&& asks(
                    after(first, r7),
                    Action::Federate { activity: CommentActivity::Create, comment, user },
                )
                &&& stops(after(first, r7.push(Reply::Checked(Err(error)))), error)
                &&& asks(after(first, r8), Action::ScrapeMentions { content: text })
                &&& notifies(after(first, r9), mentions@, comment, user, post, true)
                &&& stops(after(first, r9.push(Reply::Recipients(Err(error)))), error)
                &&& asks(
                    after(first, r10),
                    Action::Like(
                        CommentLikeForm {
                            comment_id: inserted.id,
                            post_id: request.post_id,
                            user_id: user.id,
                            score: 1,
                        },
                    ),
                )
                &&& stops(after(first, r10.push(Reply::Stored(Err(DbError::Pool(error))))), error)
                &&& refuses(
                    after(first, r10.push(Reply::Stored(Err(DbError::Query(error))))),
                    ApiError::CouldntLikeComment,
                )
                &&& asks(
                    after(first, r11),
                    Action::Federate { activity: CommentActivity::Like, comment, user },
                )
                &&& stops(after(first, r11.push(Reply::Checked(Err(error)))), error)
                &&& asks(
                    after(first, r12),
                    Action::ReadCommentView { comment_id: inserted.id, my_user_id: Some(user.id) },
                )
                &&& stops(
                    after(first, r12.push(Reply::CommentView(Err(DbError::Pool(error))))),
                    error,
                )
                &&& stops(
                    after(first, r12.push(Reply::CommentView(Err(DbError::Query(error))))),
                    error,
                )
                &&& tells(
                    after(first, r13),
                    UserOperation::CreateComment,
                    websocket_id,
                    view,
                    recipient_ids@,
                    request.form_id,
                )
            }
        }),
{
    lemma_last_reply::<E>();
}

/// The comment that is inserted is the one that was asked for: under the parent of
/// the request, if it has one, and under its post, by the user who was found, with
/// the text that came back from the cleaning.
pub proof fn inserted_as_asked_for<E>(
    request: &CreateComment,
    websocket_id: Option<ConnectionId>,
    replies: Seq<Reply<E>>,
)
    ensures
        after(request.begin(websocket_id), replies) matches Turn::Await(
            _,
            Command::Run(Action::InsertComment(form)),
        ) ==> {
            &&& form.parent_id == request.parent_id
            &&& form.post_id == request.post_id
            &&& replies[0] matches Reply::User(Ok(user))
            &&& form.creator_id == user.id
            &&& replies[1] matches Reply::Text(text)
            &&& form.content == text
            &&& replies[2] matches Reply::Post(Ok(post))
            &&& !post.locked
            &&& form.local
            &&& form.ap_id@ == "http://fake.com"@
            &&& form.removed is None
            &&& form.deleted is None
            &&& form.read is None
            &&& form.published is None
            &&& form.updated is None
        },
{
    request.inserted_comment(websocket_id, replies);
    request.changes_need_leave(websocket_id, replies);
}

} // verus!

//! What voting on a comment comes to.

use crate::like::{CreateCommentLike, CreateCommentLikeState, LikeStage};
use crate::laws::{asks, refuses, stops, tells};
use crate::protocol::{
    after, lemma_last_reply, Action, Command, CommentActivity, Handler, Reply, Turn, UserOperation,
};
use crate::rows::{
    ApiError, Comment, CommentView, ConnectionId, DbError, MentionData, Post, Site, User,
};
use vstd::prelude::*;

verus! {

/// Whether the rest of a vote, once it is known who is to hear of it, goes as it
/// should: an earlier vote is taken away; a score of 1 or -1 is stored as the new
/// vote, and any other score is not; other sites hear which of the three it was;
/// the client and the chat server get the comment as it is.
pub open spec fn votes_from<E>(
    request: &CreateCommentLike,
    websocket_id: Option<ConnectionId>,
    known: Seq<Reply<E>>,
    user: User,
    post_id: i32,
    comment: Comment,
    recipient_ids: Seq<i32>,
    view: CommentView,
    error: E,
) -> bool {
    let first = request.begin::<E>(websocket_id);
    let cleared = known.push(Reply::Stored(Ok(())));
    let voted = if request.score == 1 || request.score == -1 {
        cleared.push(Reply::Stored(Ok(())))
    } else {
        cleared
    };
    let told = voted.push(Reply::Checked(Ok(())));
    let done = told.push(Reply::CommentView(Ok(view)));
    &&& asks(
        after(first, known),
        Action::RemoveLike { user_id: user.id, comment_id: request.comment_id },
    )
    &&& stops(after(first, known.push(Reply::Stored(Err(DbError::Pool(error))))), error)
    &&& stops(after(first, known.push(Reply::Stored(Err(DbError::Query(error))))), error)
    &&& request.score == 1 || request.score == -1 ==> {
        &&& after(first, cleared) matches Turn::Await(_, Command::Run(Action::Like(form)))
        &&& form.comment_id == request.comment_id
        &&& form.post_id == post_id
        &&& form.user_id == user.id
        &&& form.score == request.score
        &&& stops(after(first, cleared.push(Reply::Stored(Err(DbError::Pool(error))))), error)
        &&& refuses(
            after(first, cleared.push(Reply::Stored(Err(DbError::Query(error))))),
            ApiError::CouldntLikeComment,
        )
    }
    &&& request.score == 1 ==> asks(
        after(first, voted),
        Action::Federate { activity: CommentActivity::Like, comment, user },
    )
    &&& request.score == -1 ==> asks(
        after(first, voted),
        Action::Federate { activity: CommentActivity::Dislike, comment, user },
    )
    &&& request.score != 1 && request.score != -1 ==> asks(
        after(first, voted),
        Action::Federate { activity: CommentActivity::UndoLike, comment, user },
    )
    &&& stops(after(first, voted.push(Reply::Checked(Err(error)))), error)
    &&& asks(
        after(first, told),
        Action::ReadCommentView { comment_id: request.comment_id, my_user_id: Some(user.id) },
    )
    &&& stops(after(first, told.push(Reply::CommentView(Err(DbError::Pool(error))))), error)
    &&& stops(after(first, told.push(Reply::CommentView(Err(DbError::Query(error))))), error)
    &&& tells(
        after(first, done),
        UserOperation::CreateCommentLike,
        websocket_id,
        view,
        recipient_ids,
        None,
    )
}

proof fn lemma_votes_from<E>(
    request: &CreateCommentLike,
    websocket_id: Option<ConnectionId>,
    known: Seq<Reply<E>>,
    user: User,
    post_id: i32,
    comment: Comment,
    recipient: Option<i32>,
    view: CommentView,
    error: E,
)
    requires
        after(request.begin::<E>(websocket_id), known) matches Turn::Await(state, command)
            && command == Command::<Seq<MentionData>>::Run(
            Action::RemoveLike { user_id: user.id, comment_id: request.comment_id },
        ) && state.request == request && state.websocket_id == websocket_id && state.stage
            == (LikeStage::RemoveVote { user, post_id, comment, recipient }),
    ensures
        votes_from(
            request,
            websocket_id,
            known,
            user,
            post_id,
            comment,
            match recipient {
                Some(id) => seq![id],
                None => Seq::empty(),
            },
            view,
            error,
        ),
{
    lemma_last_reply::<E>();
}

/// The replies that lead to a vote: who votes, whether the site has downvotes
/// enabled where the vote is one, the comment and its post, and no ban.
pub open spec fn opening<E>(
    request: &CreateCommentLike,
    user: User,
    site: Site,
    original: CommentView,
    post: Post,
    comment: Comment,
) -> Seq<Reply<E>> {
    let known = Seq::empty().push(Reply::User(Ok(user)));
    let allowed = if request.score == -1 {
        known.push(Reply::Site(Ok(site)))
    } else {
        known
    };
    allowed.push(Reply::CommentView(Ok(original))).push(Reply::Post(Ok(post))).push(
        Reply::Checked(Ok(())),
    ).push(Reply::Comment(Ok(comment)))
}

proof fn lemma_opening<E>(
    request: &CreateCommentLike,
    websocket_id: Option<ConnectionId>,
    user: User,
    site: Site,
    original: CommentView,
    post: Post,
    comment: Comment,
)
    requires
        request.score != -1 || site.enable_downvotes,
    ensures
        ({
            let first = request.begin::<E>(websocket_id);
            let opening = opening::<E>(request, user, site, original, post, comment);
            after(first, opening) == (CreateCommentLikeState {
                request,
                websocket_id,
                stage: LikeStage::Comment { user, post_id: original.post_id, post },
            }).next(Reply::<E>::Comment(Ok(comment)))
        }),
{
    lemma_last_reply::<E>();
    let first = request.begin::<E>(websocket_id);
    let r0 = Seq::<Reply<E>>::empty();
    let r1 = r0.push(Reply::User(Ok(user)));
    assert(after(first, r0) == first);
    if request.score == -1 {
        let allowed = r1.push(Reply::Site(Ok(site)));
        assert(after(first, r1) is Await);
        assert(after(first, allowed) is Await);
    } else {
        assert(after(first, r1) is Await);
    }
    reveal_with_fuel(after, 5);
}

/// A vote begins with the question who votes. A downvote asks the site next, and is
/// refused where downvotes are disabled.
pub proof fn downvotes_ask_the_site<E>(
    request: &CreateCommentLike,
    websocket_id: Option<ConnectionId>,
    user: User,
    site: Site,
    error: E,
)
    ensures
        ({
            let first = request.begin::<E>(websocket_id);
            let r0 = Seq::<Reply<E>>::empty();
            let r1 = r0.push(Reply::User(Ok(user)));
            let r2 = r1.push(Reply::Site(Ok(site)));
            &&& asks(after(first, r0), Action::Authenticate { auth: request.auth })
            &&& stops(after(first, r0.push(Reply::User(Err(error)))), error)
            &&& request.score == -1 ==> {
                &&& asks(after(first, r1), Action::ReadSite)
                &&& stops(after(first, r1.push(Reply::Site(Err(DbError::Pool(error))))), error)
                &&& stops(after(first, r1.push(Reply::Site(Err(DbError::Query(error))))), error)
                &&& !site.enable_downvotes ==> refuses(
                    after(first, r2),
                    ApiError::DownvotesDisabled,
                )
            }
        }),
{
    lemma_last_reply::<E>();
}

/// Once a vote is allowed, the comment is looked up, then its post, and users who are
/// banned from its community do not vote.
pub proof fn banned_users_do_not_vote<E>(
    request: &CreateCommentLike,
    websocket_id: Option<ConnectionId>,
    user: User,
    site: Site,
    original: CommentView,
    post: Post,
    error: E,
)
    requires
        request.score != -1 || site.enable_downvotes,
    ensures
        ({
            let first = request.begin::<E>(websocket_id);
            let r1 = Seq::<Reply<E>>::empty().push(Reply::User(Ok(user)));
            let allowed = if request.score == -1 {
                r1.push(Reply::Site(Ok(site)))
            } else {
                r1
            };
            let found = allowed.push(Reply::CommentView(Ok(original)));
            let placed = found.push(Reply::Post(Ok(post)));
            let checked = placed.push(Reply::Checked(Ok(())));
            &&& asks(
                after(first, allowed),
                Action::ReadCommentView { comment_id: request.comment_id, my_user_id: None },
            )
            &&& stops(
                after(first, allowed.push(Reply::CommentView(Err(DbError::Pool(error))))),
                error,
            )
            &&& stops(
                after(first, allowed.push(Reply::CommentView(Err(DbError::Query(error))))),
                error,
            )
            &&& asks(after(first, found), Action::GetPost { post_id: original.post_id })
            &&& stops(after(first, found.push(Reply::Post(Err(error)))), error)
            &&& asks(
                after(first, placed),
                Action::CheckCommunityBan { user_id: user.id, community_id: post.community_id },
            )
            &&& stops(after(first, placed.push(Reply::Checked(Err(error)))), error)
            &&& asks(after(first, checked), Action::ReadComment { comment_id: request.comment_id })
            &&& stops(after(first, checked.push(Reply::Comment(Err(DbError::Pool(error))))), error)
            &&& stops(
                after(first, checked.push(Reply::Comment(Err(DbError::Query(error))))),
                error,
            )
        }),
{
    lemma_last_reply::<E>();
    let first = request.begin::<E>(websocket_id);
    let r1 = Seq::<Reply<E>>::empty().push(Reply::User(Ok(user)));
    assert(after(first, Seq::<Reply<E>>::empty()) == first);
    assert(after(first, r1) is Await);
    if request.score == -1 {
        assert(after(first, r1.push(Reply::Site(Ok(site)))) is Await);
    }
}

/// A vote on a comment that has no parent: the author of the post is to hear of it.
pub proof fn a_vote_under_a_post<E>(
    request: &CreateCommentLike,
    websocket_id: Option<ConnectionId>,
    user: User,
    site: Site,
    original: CommentView,
    post: Post,
    comment: Comment,
    view: CommentView,
    error: E,
)
    requires
        request.score != -1 || site.enable_downvotes,
        comment.parent_id is None,
    ensures
        ({
            votes_from(
                request,
                websocket_id,
                opening(request, user, site, original, post, comment),
                user,
                original.post_id,
                comment,
                seq![post.creator_id],
                view,
                error,
            )
        }),
{
    lemma_last_reply::<E>();
    lemma_opening::<E>(request, websocket_id, user, site, original, post, comment);
    let known = opening::<E>(request, user, site, original, post, comment);
    let to = Some(post.creator_id);
    let post_id = original.post_id;
    lemma_votes_from(request, websocket_id, known, user, post_id, comment, to, view, error);
}

/// A vote on a comment that replies to another one: the author of that one is to hear
/// of it, unless they voted themselves.
pub proof fn a_vote_under_a_comment<E>(
    request: &CreateCommentLike,
    websocket_id: Option<ConnectionId>,
    user: User,
    site: Site,
    original: CommentView,
    post: Post,
    comment: Comment,
    parent_id: i32,
    parent: Comment,
    parent_user: User,
    view: CommentView,
    error: E,
)
    requires
        request.score != -1 || site.enable_downvotes,
        comment.parent_id == Some(parent_id),
    ensures
        ({
            let first = request.begin::<E>(websocket_id);
            let read = opening::<E>(request, user, site, original, post, comment);
            let under = read.push(Reply::Comment(Ok(parent)));
            let known = under.push(Reply::StoredUser(Ok(parent_user)));
            &&& asks(after(first, read), Action::ReadComment { comment_id: parent_id })
            &&& stops(after(first, read.push(Reply::Comment(Err(DbError::Pool(error))))), error)
            &&& stops(after(first, read.push(Reply::Comment(Err(DbError::Query(error))))), error)
            &&& parent.creator_id == user.id ==> votes_from(
                request,
                websocket_id,
                under,
                user,
                original.post_id,
                comment,
                Seq::empty(),
                view,
                error,
            )
            &&& parent.creator_id != user.id ==> {
                &&& asks(after(first, under), Action::ReadUser { user_id: parent.creator_id })
                &&& stops(
                    after(first, under.push(Reply::StoredUser(Err(DbError::Pool(error))))),
                    error,
                )
                &&& stops(
                    after(first, under.push(Reply::StoredUser(Err(DbError::Query(error))))),
                    error,
                )
                &&& votes_from(
                    request,
                    websocket_id,
                    known,
                    user,
                    original.post_id,
                    comment,
                    seq![parent_user.id],
                    view,
                    error,
                )
            }
        }),
{
    lemma_last_reply::<E>();
    lemma_opening::<E>(request, websocket_id, user, site, original, post, comment);
    let read = opening::<E>(request, user, site, original, post, comment);
    let under = read.push(Reply::Comment(Ok(parent)));
    let known = under.push(Reply::StoredUser(Ok(parent_user)));
    let post_id = original.post_id;
    if parent.creator_id == user.id {
        let to = None;
        lemma_votes_from(request, websocket_id, under, user, post_id, comment, to, view, error);
    } else {
        let to = Some(parent_user.id);
        lemma_votes_from(request, websocket_id, known, user, post_id, comment, to, view, error);
    }
}

} // verus!

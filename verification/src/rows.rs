//! The rows that the rules read, the forms that they write, and the errors
//! that they answer with.
//!
//! A row holds the columns that some rule reads. Rows that travel onwards also
//! carry `details`, the remaining columns in whatever encoding the surroundings
//! have chosen: no rule reads it, and it always comes out as it went in.

use vstd::prelude::*;

verus! {

/// Number of a websocket connection.
pub type ConnectionId = usize;

/// The address that a comment holds until its row has a number.
pub const PLACEHOLDER_AP_ID: &'static str = "http://fake.com";

/// The room of the "all" community.
pub const ALL_COMMUNITIES: i32 = 0;

/// A user of the site.
#[derive(Debug, PartialEq, Eq)]
pub struct User {
    pub id: i32,
    pub name: String,
    pub email: Option<String>,
    pub send_notifications_to_email: bool,
    /// The address under which other sites know the user.
    pub actor_id: String,
    pub details: String,
}

impl Clone for User {
    fn clone(&self) -> (res: Self)
        ensures
            res == *self,
    {
        User {
            id: self.id,
            name: self.name.clone(),
            email: self.email.clone(),
            send_notifications_to_email: self.send_notifications_to_email,
            actor_id: self.actor_id.clone(),
            details: self.details.clone(),
        }
    }
}

/// A comment as it is stored.
#[derive(Debug, PartialEq, Eq)]
pub struct Comment {
    pub id: i32,
    pub creator_id: i32,
    pub parent_id: Option<i32>,
    pub content: String,
    pub details: String,
}

impl Clone for Comment {
    fn clone(&self) -> (res: Self)
        ensures
            res == *self,
    {
        Comment {
            id: self.id,
            creator_id: self.creator_id,
            parent_id: self.parent_id,
            content: self.content.clone(),
            details: self.details.clone(),
        }
    }
}

/// A comment as it is shown: joined with its post, its community and its reader.
#[derive(Debug, PartialEq, Eq)]
pub struct CommentView {
    pub post_id: i32,
    pub creator_id: i32,
    pub community_id: i32,
    pub parent_id: Option<i32>,
    pub details: String,
}

impl Clone for CommentView {
    fn clone(&self) -> (res: Self)
        ensures
            res == *self,
    {
        CommentView {
            post_id: self.post_id,
            creator_id: self.creator_id,
            community_id: self.community_id,
            parent_id: self.parent_id,
            details: self.details.clone(),
        }
    }
}

/// A post that comments are written under.
#[derive(Clone, Copy, Debug, PartialEq, Eq)]
pub struct Post {
    pub creator_id: i32,
    pub community_id: i32,
    pub locked: bool,
}

/// The settings of the site that comments depend on.
#[derive(Clone, Copy, Debug, PartialEq, Eq)]
pub struct Site {
    pub enable_downvotes: bool,
}

/// Somebody who is mentioned in a text.
#[derive(Debug, PartialEq, Eq)]
pub struct MentionData {
    pub name: String,
    /// Whether the mention names a user of this site.
    pub local: bool,
}

/// A new comment.
#[derive(Debug, PartialEq, Eq)]
pub struct CommentForm {
    pub content: String,
    pub parent_id: Option<i32>,
    pub post_id: i32,
    pub creator_id: i32,
    pub removed: Option<bool>,
    pub deleted: Option<bool>,
    pub read: Option<bool>,
    pub published: Option<String>,
    pub updated: Option<String>,
    pub ap_id: &'static str,
    pub local: bool,
}

/// A vote on a comment.
#[derive(Clone, Copy, Debug, PartialEq, Eq)]
pub struct CommentLikeForm {
    pub comment_id: i32,
    pub post_id: i32,
    pub user_id: i32,
    pub score: i16,
}

/// A comment that a user keeps.
#[derive(Clone, Copy, Debug, PartialEq, Eq)]
pub struct CommentSavedForm {
    pub comment_id: i32,
    pub user_id: i32,
}

/// An entry of the moderation log: a comment removed, or put back.
#[derive(Debug, PartialEq, Eq)]
pub struct ModRemoveCommentForm {
    pub mod_user_id: i32,
    pub comment_id: i32,
    pub removed: Option<bool>,
    pub reason: Option<String>,
}

/// A note that a comment mentions a user.
#[derive(Clone, Copy, Debug, PartialEq, Eq)]
pub struct UserMentionForm {
    pub recipient_id: i32,
    pub comment_id: i32,
    pub read: Option<bool>,
}

/// A listing type that has been recognised, under the name it was asked for by.
#[derive(Debug, PartialEq, Eq)]
pub struct ListingType {
    pub name: String,
}

/// A sort order that has been recognised, under the name it was asked for by.
#[derive(Debug, PartialEq, Eq)]
pub struct SortType {
    pub name: String,
}

/// Which comments to list, and in which order.
#[derive(Debug, PartialEq, Eq)]
pub struct CommentQuery {
    pub listing_type: ListingType,
    pub sort: SortType,
    pub for_community_id: Option<i32>,
    pub my_user_id: Option<i32>,
    pub page: Option<i64>,
    pub limit: Option<i64>,
}

/// What a client is told when a request is refused.
#[derive(Clone, Copy, Debug, PartialEq, Eq)]
pub enum ApiError {
    Locked,
    CouldntCreateComment,
    NoCommentEditAllowed,
    CouldntUpdateComment,
    CouldntLikeComment,
    CouldntSaveComment,
    DownvotesDisabled,
    CouldntGetComments,
}

impl ApiError {
    /// The word that the client receives.
    pub open spec fn spec_message(self) -> &'static str {
        match self {
            ApiError::Locked => "locked",
            ApiError::CouldntCreateComment => "couldnt_create_comment",
            ApiError::NoCommentEditAllowed => "no_comment_edit_allowed",
            ApiError::CouldntUpdateComment => "couldnt_update_comment",
            ApiError::CouldntLikeComment => "couldnt_like_comment",
            ApiError::CouldntSaveComment => "couldnt_save_comment",
            ApiError::DownvotesDisabled => "downvotes_disabled",
            ApiError::CouldntGetComments => "couldnt_get_comments",
        }
    }

    /// The word that the client receives.
    pub fn message(self) -> (res: &'static str)
        ensures
            res == self.spec_message(),
    {
        match self {
            ApiError::Locked => "locked",
            ApiError::CouldntCreateComment => "couldnt_create_comment",
            ApiError::NoCommentEditAllowed => "no_comment_edit_allowed",
            ApiError::CouldntUpdateComment => "couldnt_update_comment",
            ApiError::CouldntLikeComment => "couldnt_like_comment",
            ApiError::CouldntSaveComment => "couldnt_save_comment",
            ApiError::DownvotesDisabled => "downvotes_disabled",
            ApiError::CouldntGetComments => "couldnt_get_comments",
        }
    }
}

/// Why a request failed: refused by a rule, or stopped by an error of the
/// surroundings, which is handed on as it is.
#[derive(Debug, PartialEq, Eq)]
pub enum Failure<E> {
    Api(ApiError),
    Other(E),
}

/// Why a question to the database failed: no connection could be had, or the
/// query itself went wrong.
#[derive(Debug, PartialEq, Eq)]
pub enum DbError<E> {
    Pool(E),
    Query(E),
}

impl<E> DbError<E> {
    /// The error inside, whichever it is.
    pub open spec fn spec_inner(self) -> E {
        match self {
            DbError::Pool(e) => e,
            DbError::Query(e) => e,
        }
    }

    /// The error inside, whichever it is.
    pub fn inner(self) -> (res: E)
        ensures
            res == self.spec_inner(),
    {
        match self {
            DbError::Pool(e) => e,
            DbError::Query(e) => e,
        }
    }

    /// What a failed write comes to: a lost connection is handed on, a failed
    /// query is answered with `refusal`.
    pub open spec fn spec_refusal(self, refusal: ApiError) -> Failure<E> {
        match self {
            DbError::Pool(e) => Failure::Other(e),
            DbError::Query(_) => Failure::Api(refusal),
        }
    }

    /// What a failed write comes to: a lost connection is handed on, a failed
    /// query is answered with `refusal`.
    pub fn refusal(self, refusal: ApiError) -> (res: Failure<E>)
        ensures
            res == self.spec_refusal(refusal),
    {
        match self {
            DbError::Pool(e) => Failure::Other(e),
            DbError::Query(_) => Failure::Api(refusal),
        }
    }
}

} // verus!

//! Requests about comments, from the first command to the answer.

use lemmy_comments::create::CreateComment;
use lemmy_comments::delete::DeleteComment;
use lemmy_comments::edit::EditComment;
use lemmy_comments::like::CreateCommentLike;
use lemmy_comments::list::{GetComments, GetCommentsResponse};
use lemmy_comments::mark_read::MarkCommentAsRead;
use lemmy_comments::protocol::{
    Action, ChatMessage, Command, CommentActivity, CommentResponse, CommentTurn, EndpointType,
    Handler, Outcome, Reply, Turn, UserOperation,
};
use lemmy_comments::remove::RemoveComment;
use lemmy_comments::rows::{
    ApiError, Comment, CommentForm, CommentLikeForm, CommentQuery, CommentSavedForm, CommentView,
    DbError, Failure, ListingType, MentionData, ModRemoveCommentForm, Post, Site, SortType, User,
};
use lemmy_comments::save::SaveComment;

type Commands = Vec<Command<Vec<MentionData>>>;

type Ended<R> = Option<Outcome<CommentResponse, R, String>>;

/// Hands the replies to a request, one by one. Gives back the commands, and how
/// the request ended if it did.
fn drive<H: Handler<String>>(
    first: CommentTurn<H, H::Response, String>,
    replies: Vec<Reply<String>>,
) -> (Commands, Ended<H::Response>) {
    let mut commands = Vec::new();
    let mut replies = replies.into_iter();
    let mut turn = first;
    loop {
        match turn {
            Turn::Await(state, command) => {
                commands.push(command);
                match replies.next() {
                    Some(reply) => turn = state.resume(reply),
                    None => return (commands, None),
                }
            }
            Turn::Finished(outcome) => {
                assert!(replies.next().is_none());
                return (commands, Some(outcome));
            }
            Turn::Unexpected => panic!("a reply does not answer its command"),
        }
    }
}

fn refused<R>(error: ApiError) -> Ended<R> {
    Some(Outcome { message: None, result: Err(Failure::Api(error)) })
}

fn stopped<R>(error: &str) -> Ended<R> {
    Some(Outcome { message: None, result: Err(Failure::Other(error.to_string())) })
}

fn answered(comment: CommentView) -> Ended<CommentResponse> {
    Some(Outcome {
        message: None,
        result: Ok(CommentResponse { comment, recipient_ids: vec![], form_id: None }),
    })
}

fn broadcast(
    op: UserOperation,
    comment: CommentView,
    recipient_ids: Vec<i32>,
    form_id: Option<&str>,
    websocket_id: Option<usize>,
) -> Ended<CommentResponse> {
    let form_id = form_id.map(|id| id.to_string());
    Some(Outcome {
        message: Some(ChatMessage::SendComment {
            op,
            comment: CommentResponse {
                comment: comment.clone(),
                recipient_ids,
                form_id: form_id.clone(),
            },
            websocket_id,
        }),
        result: Ok(CommentResponse { comment, recipient_ids: vec![], form_id }),
    })
}

fn ask(action: Action) -> Command<Vec<MentionData>> {
    Command::Run(action)
}

fn authenticate() -> Command<Vec<MentionData>> {
    ask(Action::Authenticate { auth: "token".to_string() })
}

fn read_view(comment_id: i32, my_user_id: Option<i32>) -> Command<Vec<MentionData>> {
    ask(Action::ReadCommentView { comment_id, my_user_id })
}

fn check_ban() -> Command<Vec<MentionData>> {
    ask(Action::CheckCommunityBan { user_id: 7, community_id: 30 })
}

fn federate(activity: CommentActivity, comment: Comment) -> Command<Vec<MentionData>> {
    ask(Action::Federate { activity, comment, user: user(7) })
}

fn user(id: i32) -> User {
    User {
        id,
        name: format!("user{}", id),
        email: None,
        send_notifications_to_email: false,
        actor_id: format!("https://here.org/u/{}", id),
        details: format!("about user {}", id),
    }
}

fn comment(id: i32, creator_id: i32, parent_id: Option<i32>, content: &str) -> Comment {
    Comment {
        id,
        creator_id,
        parent_id,
        content: content.to_string(),
        details: format!("about comment {}", id),
    }
}

fn view(creator_id: i32, parent_id: Option<i32>, details: &str) -> CommentView {
    CommentView {
        post_id: 20,
        creator_id,
        community_id: 30,
        parent_id,
        details: details.to_string(),
    }
}

fn post(locked: bool) -> Post {
    Post { creator_id: 8, community_id: 30, locked }
}

fn pool<T>() -> Result<T, DbError<String>> {
    Err(DbError::Pool("no connection".to_string()))
}

fn query<T>() -> Result<T, DbError<String>> {
    Err(DbError::Query("bad query".to_string()))
}

fn other<T>(error: &str) -> Result<T, String> {
    Err(error.to_string())
}

fn mention(name: &str) -> MentionData {
    MentionData { name: name.to_string(), local: true }
}

// Writing a comment.

fn create_request() -> CreateComment {
    CreateComment {
        content: "a bad word @ann".to_string(),
        parent_id: Some(40),
        post_id: 20,
        form_id: Some("form".to_string()),
        auth: "token".to_string(),
    }
}

fn create_replies(inserted: Reply<String>) -> Vec<Reply<String>> {
    vec![
        Reply::User(Ok(user(7))),
        Reply::Text("a *** word @ann".to_string()),
        Reply::Post(Ok(post(false))),
        Reply::Checked(Ok(())),
        inserted,
    ]
}

fn endpoint() -> Reply<String> {
    Reply::Address("https://here.org/comment/50".to_string())
}

fn stored_comment() -> Comment {
    comment(50, 7, Some(40), "as it was stored")
}

#[test]
fn a_comment_is_written_and_broadcast() {
    let request = create_request();
    let mut replies = create_replies(Reply::Comment(Ok(comment(50, 7, Some(40), "new"))));
    replies.extend(vec![
        endpoint(),
        Reply::Comment(Ok(stored_comment())),
        Reply::Checked(Ok(())),
        Reply::Mentions(vec![mention("ann")]),
        Reply::Recipients(Ok(vec![9, 8])),
        Reply::Stored(Ok(())),
        Reply::Checked(Ok(())),
        Reply::CommentView(Ok(view(7, Some(40), "shown"))),
    ]);
    let (commands, ended) = drive(request.perform(Some(3)), replies);
    assert_eq!(
        commands,
        vec![
            authenticate(),
            ask(Action::RemoveSlurs { content: "a bad word @ann".to_string() }),
            ask(Action::GetPost { post_id: 20 }),
            check_ban(),
            ask(Action::InsertComment(CommentForm {
                content: "a *** word @ann".to_string(),
                parent_id: Some(40),
                post_id: 20,
                creator_id: 7,
                removed: None,
                deleted: None,
                read: None,
                published: None,
                updated: None,
                ap_id: "http://fake.com",
                local: true,
            })),
            ask(Action::MakeApubEndpoint { endpoint_type: EndpointType::Comment, id: 50 }),
            ask(Action::UpdateApId {
                comment_id: 50,
                ap_id: "https://here.org/comment/50".to_string(),
            }),
            federate(CommentActivity::Create, stored_comment()),
            ask(Action::ScrapeMentions { content: "a *** word @ann".to_string() }),
            Command::SendLocalNotifs {
                mentions: vec![mention("ann")],
                comment: stored_comment(),
                user: user(7),
                post: post(false),
                do_send_email: true,
            },
            ask(Action::Like(CommentLikeForm {
                comment_id: 50,
                post_id: 20,
                user_id: 7,
                score: 1,
            })),
            federate(CommentActivity::Like, stored_comment()),
            read_view(50, Some(7)),
        ]
    );
    assert_eq!(
        ended,
        broadcast(
            UserOperation::CreateComment,
            view(7, Some(40), "shown"),
            vec![9, 8],
            Some("form"),
            Some(3),
        )
    );
}

#[test]
fn nobody_comments_without_a_valid_token() {
    let request = create_request();
    let (commands, ended) =
        drive(request.perform(None), vec![Reply::User(other("not_logged_in"))]);
    assert_eq!(commands, vec![authenticate()]);
    assert_eq!(ended, stopped("not_logged_in"));
}

#[test]
fn nobody_comments_under_a_missing_post() {
    let request = create_request();
    let replies = vec![
        Reply::User(Ok(user(7))),
        Reply::Text("text".to_string()),
        Reply::Post(other("couldnt_find_post")),
    ];
    let (commands, ended) = drive(request.perform(None), replies);
    assert_eq!(commands.len(), 3);
    assert_eq!(ended, stopped("couldnt_find_post"));
}

#[test]
fn banned_users_do_not_comment() {
    let request = create_request();
    let replies = vec![
        Reply::User(Ok(user(7))),
        Reply::Text("text".to_string()),
        Reply::Post(Ok(post(false))),
        Reply::Checked(other("community_ban")),
    ];
    let (commands, ended) = drive(request.perform(None), replies);
    assert_eq!(commands.last(), Some(&check_ban()));
    assert_eq!(ended, stopped("community_ban"));
}

#[test]
fn locked_posts_take_no_comments() {
    let request = create_request();
    let replies = vec![
        Reply::User(Ok(user(7))),
        Reply::Text("text".to_string()),
        Reply::Post(Ok(post(true))),
        Reply::Checked(Ok(())),
    ];
    let (commands, ended) = drive(request.perform(None), replies);
    assert_eq!(commands.len(), 4);
    assert_eq!(ended, refused(ApiError::Locked));
}

#[test]
fn a_comment_that_cannot_be_stored_is_refused() {
    let request = create_request();
    let (commands, ended) =
        drive(request.perform(None), create_replies(Reply::Comment(query())));
    assert_eq!(commands.len(), 5);
    assert_eq!(ended, refused(ApiError::CouldntCreateComment));

    let (_, ended) = drive(request.perform(None), create_replies(Reply::Comment(pool())));
    assert_eq!(ended, stopped("no connection"));
}

#[test]
fn a_comment_without_an_address_is_refused() {
    let request = create_request();
    let mut replies = create_replies(Reply::Comment(Ok(stored_comment())));
    replies.push(endpoint());
    replies.push(Reply::Comment(query()));
    let (_, ended) = drive(request.perform(None), replies);
    assert_eq!(ended, refused(ApiError::CouldntCreateComment));

    let mut replies = create_replies(Reply::Comment(Ok(stored_comment())));
    replies.push(endpoint());
    replies.push(Reply::Comment(pool()));
    let (_, ended) = drive(request.perform(None), replies);
    assert_eq!(ended, stopped("no connection"));
}

#[test]
fn errors_after_the_comment_is_stored_are_handed_on() {
    let request = create_request();
    let begin = || {
        let mut replies = create_replies(Reply::Comment(Ok(stored_comment())));
        replies.push(endpoint());
        replies.push(Reply::Comment(Ok(stored_comment())));
        replies
    };

    let mut replies = begin();
    replies.push(Reply::Checked(other("unreachable")));
    let (_, ended) = drive(request.perform(None), replies);
    assert_eq!(ended, stopped("unreachable"));

    let mut replies = begin();
    replies.push(Reply::Checked(Ok(())));
    replies.push(Reply::Mentions(vec![]));
    replies.push(Reply::Recipients(other("no connection")));
    let (_, ended) = drive(request.perform(None), replies);
    assert_eq!(ended, stopped("no connection"));

    let mut replies = begin();
    replies.push(Reply::Checked(Ok(())));
    replies.push(Reply::Mentions(vec![]));
    replies.push(Reply::Recipients(Ok(vec![])));
    replies.push(Reply::Stored(query()));
    let (_, ended) = drive(request.perform(None), replies);
    assert_eq!(ended, refused(ApiError::CouldntLikeComment));

    let mut replies = begin();
    replies.push(Reply::Checked(Ok(())));
    replies.push(Reply::Mentions(vec![]));
    replies.push(Reply::Recipients(Ok(vec![])));
    replies.push(Reply::Stored(Ok(())));
    replies.push(Reply::Checked(Ok(())));
    replies.push(Reply::CommentView(query()));
    let (_, ended) = drive(request.perform(None), replies);
    assert_eq!(ended, stopped("bad query"));
}

#[test]
fn a_reply_to_another_command_is_unexpected() {
    let request = create_request();
    match request.perform::<String>(None) {
        Turn::Await(state, _) => {
            assert_eq!(state.resume(Reply::<String>::Text("text".to_string())), Turn::Unexpected);
        }
        _ => panic!("a request begins with a command"),
    }
}

// Editing a comment.

fn edit_request() -> EditComment {
    EditComment {
        content: "better".to_string(),
        edit_id: 50,
        form_id: None,
        auth: "token".to_string(),
    }
}

#[test]
fn a_comment_is_edited_and_broadcast() {
    let request = edit_request();
    let updated = comment(50, 7, None, "better @ann");
    let (commands, ended) = drive(
        request.perform(None),
        vec![
            Reply::User(Ok(user(7))),
            Reply::CommentView(Ok(view(7, None, "before"))),
            Reply::Checked(Ok(())),
            Reply::Text("clean".to_string()),
            Reply::Comment(Ok(updated.clone())),
            Reply::Checked(Ok(())),
            Reply::Post(Ok(post(true))),
            Reply::Mentions(vec![mention("ann")]),
            Reply::Recipients(Ok(vec![9])),
            Reply::CommentView(Ok(view(7, None, "after"))),
        ],
    );
    assert_eq!(
        commands,
        vec![
            authenticate(),
            read_view(50, None),
            check_ban(),
            ask(Action::RemoveSlurs { content: "better".to_string() }),
            ask(Action::UpdateContent { comment_id: 50, content: "clean".to_string() }),
            federate(CommentActivity::Update, updated.clone()),
            ask(Action::GetPost { post_id: 20 }),
            ask(Action::ScrapeMentions { content: "better @ann".to_string() }),
            Command::SendLocalNotifs {
                mentions: vec![mention("ann")],
                comment: updated,
                user: user(7),
                post: post(true),
                do_send_email: false,
            },
            read_view(50, Some(7)),
        ]
    );
    assert_eq!(
        ended,
        broadcast(UserOperation::EditComment, view(7, None, "after"), vec![9], None, None)
    );
}

#[test]
fn only_its_creator_edits_a_comment() {
    let request = edit_request();
    let (commands, ended) = drive(
        request.perform(None),
        vec![
            Reply::User(Ok(user(7))),
            Reply::CommentView(Ok(view(8, None, "before"))),
            Reply::Checked(Ok(())),
        ],
    );
    assert_eq!(commands.len(), 3);
    assert_eq!(ended, refused(ApiError::NoCommentEditAllowed));
}

#[test]
fn a_ban_comes_before_the_question_who_wrote_it() {
    let request = edit_request();
    let (_, ended) = drive(
        request.perform(None),
        vec![
            Reply::User(Ok(user(7))),
            Reply::CommentView(Ok(view(8, None, "before"))),
            Reply::Checked(other("community_ban")),
        ],
    );
    assert_eq!(ended, stopped("community_ban"));
}

#[test]
fn an_edit_that_cannot_be_stored_is_refused() {
    let request = edit_request();
    let replies = |update: Reply<String>| {
        vec![
            Reply::User(Ok(user(7))),
            Reply::CommentView(Ok(view(7, None, "before"))),
            Reply::Checked(Ok(())),
            Reply::Text("clean".to_string()),
            update,
        ]
    };
    let (_, ended) = drive(request.perform(None), replies(Reply::Comment(query())));
    assert_eq!(ended, refused(ApiError::CouldntUpdateComment));
    let (_, ended) = drive(request.perform(None), replies(Reply::Comment(pool())));
    assert_eq!(ended, stopped("no connection"));
}

// Deleting a comment.

fn delete_request(deleted: bool) -> DeleteComment {
    DeleteComment { edit_id: 50, deleted, auth: "token".to_string() }
}

fn delete_run(deleted: bool, activity: CommentActivity) {
    let request = delete_request(deleted);
    let updated = comment(50, 7, Some(40), "text");
    let (commands, ended) = drive(
        request.perform(Some(4)),
        vec![
            Reply::User(Ok(user(7))),
            Reply::CommentView(Ok(view(7, Some(40), "before"))),
            Reply::Checked(Ok(())),
            Reply::Comment(Ok(updated.clone())),
            Reply::Checked(Ok(())),
            Reply::CommentView(Ok(view(7, Some(40), "after"))),
            Reply::Post(Ok(post(false))),
            Reply::Recipients(Ok(vec![8])),
        ],
    );
    assert_eq!(
        commands,
        vec![
            authenticate(),
            read_view(50, None),
            check_ban(),
            ask(Action::UpdateDeleted { comment_id: 50, deleted }),
            federate(activity, updated.clone()),
            read_view(50, Some(7)),
            ask(Action::GetPost { post_id: 20 }),
            Command::SendLocalNotifs {
                mentions: vec![],
                comment: updated,
                user: user(7),
                post: post(false),
                do_send_email: false,
            },
        ]
    );
    assert_eq!(
        ended,
        broadcast(
            UserOperation::DeleteComment,
            view(7, Some(40), "after"),
            vec![8],
            None,
            Some(4),
        )
    );
}

#[test]
fn a_comment_is_deleted() {
    delete_run(true, CommentActivity::Delete);
}

#[test]
fn a_deleted_comment_comes_back() {
    delete_run(false, CommentActivity::UndoDelete);
}

#[test]
fn only_its_creator_deletes_a_comment() {
    let request = delete_request(true);
    let (commands, ended) = drive(
        request.perform(None),
        vec![
            Reply::User(Ok(user(7))),
            Reply::CommentView(Ok(view(8, None, "before"))),
            Reply::Checked(Ok(())),
        ],
    );
    assert_eq!(commands.len(), 3);
    assert_eq!(ended, refused(ApiError::NoCommentEditAllowed));
}

#[test]
fn a_deletion_that_cannot_be_stored_is_refused() {
    let request = delete_request(true);
    let (_, ended) = drive(
        request.perform(None),
        vec![
            Reply::User(Ok(user(7))),
            Reply::CommentView(Ok(view(7, None, "before"))),
            Reply::Checked(Ok(())),
            Reply::Comment(query()),
        ],
    );
    assert_eq!(ended, refused(ApiError::CouldntUpdateComment));
}

// Removing a comment.

fn remove_request(removed: bool) -> RemoveComment {
    RemoveComment {
        edit_id: 50,
        removed,
        reason: Some("spam".to_string()),
        auth: "token".to_string(),
    }
}

fn remove_run(removed: bool, activity: CommentActivity) {
    let request = remove_request(removed);
    let updated = comment(50, 9, None, "text");
    let (commands, ended) = drive(
        request.perform(None),
        vec![
            Reply::User(Ok(user(7))),
            Reply::CommentView(Ok(view(9, None, "before"))),
            Reply::Checked(Ok(())),
            Reply::Checked(Ok(())),
            Reply::Comment(Ok(updated.clone())),
            Reply::Stored(Ok(())),
            Reply::Checked(Ok(())),
            Reply::CommentView(Ok(view(9, None, "after"))),
            Reply::Post(Ok(post(false))),
            Reply::Recipients(Ok(vec![8])),
        ],
    );
    assert_eq!(
        commands,
        vec![
            authenticate(),
            read_view(50, None),
            check_ban(),
            ask(Action::CheckModOrAdmin { user_id: 7, community_id: 30 }),
            ask(Action::UpdateRemoved { comment_id: 50, removed }),
            ask(Action::RecordRemoval(ModRemoveCommentForm {
                mod_user_id: 7,
                comment_id: 50,
                removed: Some(removed),
                reason: Some("spam".to_string()),
            })),
            federate(activity, updated.clone()),
            read_view(50, Some(7)),
            ask(Action::GetPost { post_id: 20 }),
            Command::SendLocalNotifs {
                mentions: vec![],
                comment: updated,
                user: user(7),
                post: post(false),
                do_send_email: false,
            },
        ]
    );
    assert_eq!(
        ended,
        broadcast(UserOperation::RemoveComment, view(9, None, "after"), vec![8], None, None)
    );
}

#[test]
fn a_moderator_removes_a_comment() {
    remove_run(true, CommentActivity::Remove);
}

#[test]
fn a_moderator_puts_a_comment_back() {
    remove_run(false, CommentActivity::UndoRemove);
}

#[test]
fn others_do_not_remove_comments() {
    let request = remove_request(true);
    let (commands, ended) = drive(
        request.perform(None),
        vec![
            Reply::User(Ok(user(7))),
            Reply::CommentView(Ok(view(7, None, "before"))),
            Reply::Checked(Ok(())),
            Reply::Checked(other("not_a_mod_or_admin")),
        ],
    );
    assert_eq!(commands.len(), 4);
    assert_eq!(ended, stopped("not_a_mod_or_admin"));
}

#[test]
fn a_removal_that_cannot_be_stored_is_refused() {
    let request = remove_request(true);
    let replies = || {
        vec![
            Reply::User(Ok(user(7))),
            Reply::CommentView(Ok(view(9, None, "before"))),
            Reply::Checked(Ok(())),
            Reply::Checked(Ok(())),
        ]
    };
    let mut refusing = replies();
    refusing.push(Reply::Comment(query()));
    let (_, ended) = drive(request.perform(None), refusing);
    assert_eq!(ended, refused(ApiError::CouldntUpdateComment));

    let mut unrecorded = replies();
    unrecorded.push(Reply::Comment(Ok(comment(50, 9, None, "text"))));
    unrecorded.push(Reply::Stored(query()));
    let (_, ended) = drive(request.perform(None), unrecorded);
    assert_eq!(ended, stopped("bad query"));
}

// Marking a comment as read.

fn mark_request() -> MarkCommentAsRead {
    MarkCommentAsRead { edit_id: 50, read: true, auth: "token".to_string() }
}

#[test]
fn the_author_of_the_parent_comment_marks_a_reply_as_read() {
    let request = mark_request();
    let (commands, ended) = drive(
        request.perform(Some(3)),
        vec![
            Reply::User(Ok(user(7))),
            Reply::CommentView(Ok(view(9, Some(40), "before"))),
            Reply::Checked(Ok(())),
            Reply::CommentView(Ok(view(7, None, "parent"))),
            Reply::Comment(Ok(comment(50, 9, Some(40), "text"))),
            Reply::CommentView(Ok(view(9, Some(40), "after"))),
        ],
    );
    assert_eq!(
        commands,
        vec![
            authenticate(),
            read_view(50, None),
            check_ban(),
            read_view(40, None),
            ask(Action::UpdateRead { comment_id: 50, read: true }),
            read_view(50, Some(7)),
        ]
    );
    assert_eq!(ended, answered(view(9, Some(40), "after")));
}

#[test]
fn the_author_of_the_post_marks_a_reply_as_read() {
    let request = mark_request();
    let (commands, ended) = drive(
        request.perform(None),
        vec![
            Reply::User(Ok(user(8))),
            Reply::CommentView(Ok(view(9, None, "before"))),
            Reply::Checked(Ok(())),
            Reply::StoredPost(Ok(post(false))),
            Reply::Comment(Ok(comment(50, 9, None, "text"))),
            Reply::CommentView(Ok(view(9, None, "after"))),
        ],
    );
    assert_eq!(commands[3], ask(Action::ReadPost { post_id: 20 }));
    assert_eq!(commands[4], ask(Action::UpdateRead { comment_id: 50, read: true }));
    assert_eq!(ended, answered(view(9, None, "after")));
}

#[test]
fn others_do_not_mark_replies_as_read() {
    let request = mark_request();
    let (_, ended) = drive(
        request.perform(None),
        vec![
            Reply::User(Ok(user(7))),
            Reply::CommentView(Ok(view(7, Some(40), "before"))),
            Reply::Checked(Ok(())),
            Reply::CommentView(Ok(view(9, None, "parent"))),
        ],
    );
    assert_eq!(ended, refused(ApiError::NoCommentEditAllowed));

    let (_, ended) = drive(
        request.perform(None),
        vec![
            Reply::User(Ok(user(7))),
            Reply::CommentView(Ok(view(7, None, "before"))),
            Reply::Checked(Ok(())),
            Reply::StoredPost(Ok(post(false))),
        ],
    );
    assert_eq!(ended, refused(ApiError::NoCommentEditAllowed));
}

#[test]
fn a_mark_that_cannot_be_stored_is_refused() {
    let request = mark_request();
    let (_, ended) = drive(
        request.perform(None),
        vec![
            Reply::User(Ok(user(8))),
            Reply::CommentView(Ok(view(9, None, "before"))),
            Reply::Checked(Ok(())),
            Reply::StoredPost(Ok(post(false))),
            Reply::Comment(query()),
        ],
    );
    assert_eq!(ended, refused(ApiError::CouldntUpdateComment));
}

// Saving a comment.

#[test]
fn a_comment_is_saved_and_unsaved() {
    let form = CommentSavedForm { comment_id: 50, user_id: 7 };
    for save in vec![true, false] {
        let request = SaveComment { comment_id: 50, save, auth: "token".to_string() };
        let (commands, ended) = drive(
            request.perform(Some(3)),
            vec![
                Reply::User(Ok(user(7))),
                Reply::Stored(Ok(())),
                Reply::CommentView(Ok(view(9, None, "after"))),
            ],
        );
        let change = if save { Action::Save(form) } else { Action::Unsave(form) };
        assert_eq!(commands, vec![authenticate(), ask(change), read_view(50, Some(7))]);
        assert_eq!(ended, answered(view(9, None, "after")));
    }
}

#[test]
fn a_save_that_cannot_be_stored_is_refused() {
    for save in vec![true, false] {
        let request = SaveComment { comment_id: 50, save, auth: "token".to_string() };
        let (_, ended) = drive(
            request.perform(None),
            vec![Reply::User(Ok(user(7))), Reply::Stored(query())],
        );
        assert_eq!(ended, refused(ApiError::CouldntSaveComment));
        let (_, ended) =
            drive(request.perform(None), vec![Reply::User(Ok(user(7))), Reply::Stored(pool())]);
        assert_eq!(ended, stopped("no connection"));
    }
}

// Voting on a comment.

fn like_request(score: i16) -> CreateCommentLike {
    CreateCommentLike { comment_id: 50, score, auth: "token".to_string() }
}

fn vote(score: i16) -> Command<Vec<MentionData>> {
    ask(Action::Like(CommentLikeForm { comment_id: 50, post_id: 20, user_id: 7, score }))
}

fn remove_vote() -> Command<Vec<MentionData>> {
    ask(Action::RemoveLike { user_id: 7, comment_id: 50 })
}

#[test]
fn an_upvote_on_a_reply_reaches_the_author_of_its_parent() {
    let request = like_request(1);
    let voted = comment(50, 9, Some(40), "text");
    let (commands, ended) = drive(
        request.perform(Some(3)),
        vec![
            Reply::User(Ok(user(7))),
            Reply::CommentView(Ok(view(9, Some(40), "before"))),
            Reply::Post(Ok(post(true))),
            Reply::Checked(Ok(())),
            Reply::Comment(Ok(voted.clone())),
            Reply::Comment(Ok(comment(40, 11, None, "parent"))),
            Reply::StoredUser(Ok(user(11))),
            Reply::Stored(Ok(())),
            Reply::Stored(Ok(())),
            Reply::Checked(Ok(())),
            Reply::CommentView(Ok(view(9, Some(40), "after"))),
        ],
    );
    assert_eq!(
        commands,
        vec![
            authenticate(),
            read_view(50, None),
            ask(Action::GetPost { post_id: 20 }),
            check_ban(),
            ask(Action::ReadComment { comment_id: 50 }),
            ask(Action::ReadComment { comment_id: 40 }),
            ask(Action::ReadUser { user_id: 11 }),
            remove_vote(),
            vote(1),
            federate(CommentActivity::Like, voted),
            read_view(50, Some(7)),
        ]
    );
    assert_eq!(
        ended,
        broadcast(
            UserOperation::CreateCommentLike,
            view(9, Some(40), "after"),
            vec![11],
            None,
            Some(3),
        )
    );
}

#[test]
fn a_vote_under_ones_own_comment_reaches_nobody() {
    let request = like_request(1);
    let (commands, ended) = drive(
        request.perform(None),
        vec![
            Reply::User(Ok(user(7))),
            Reply::CommentView(Ok(view(9, Some(40), "before"))),
            Reply::Post(Ok(post(false))),
            Reply::Checked(Ok(())),
            Reply::Comment(Ok(comment(50, 9, Some(40), "text"))),
            Reply::Comment(Ok(comment(40, 7, None, "parent"))),
            Reply::Stored(Ok(())),
            Reply::Stored(Ok(())),
            Reply::Checked(Ok(())),
            Reply::CommentView(Ok(view(9, Some(40), "after"))),
        ],
    );
    assert_eq!(commands[6], remove_vote());
    assert_eq!(
        ended,
        broadcast(
            UserOperation::CreateCommentLike,
            view(9, Some(40), "after"),
            vec![],
            None,
            None,
        )
    );
}

fn vote_under_post(score: i16, voter: i32) -> (Commands, Ended<CommentResponse>) {
    let request = like_request(score);
    let mut replies = vec![Reply::User(Ok(user(voter)))];
    if score == -1 {
        replies.push(Reply::Site(Ok(Site { enable_downvotes: true })));
    }
    replies.extend(vec![
        Reply::CommentView(Ok(view(9, None, "before"))),
        Reply::Post(Ok(post(false))),
        Reply::Checked(Ok(())),
        Reply::Comment(Ok(comment(50, 9, None, "text"))),
        Reply::Stored(Ok(())),
    ]);
    if score == 1 || score == -1 {
        replies.push(Reply::Stored(Ok(())));
    }
    replies.push(Reply::Checked(Ok(())));
    replies.push(Reply::CommentView(Ok(view(9, None, "after"))));
    drive(request.perform(None), replies)
}

fn voted_under_post() -> Ended<CommentResponse> {
    broadcast(UserOperation::CreateCommentLike, view(9, None, "after"), vec![8], None, None)
}

#[test]
fn a_downvote_asks_the_site_first() {
    let (commands, ended) = vote_under_post(-1, 7);
    assert_eq!(commands[1], ask(Action::ReadSite));
    assert_eq!(commands[6], remove_vote());
    assert_eq!(commands[7], vote(-1));
    assert_eq!(
        commands[8],
        federate(CommentActivity::Dislike, comment(50, 9, None, "text"))
    );
    assert_eq!(ended, voted_under_post());
}

#[test]
fn every_other_score_takes_a_vote_back() {
    for score in vec![0, 2, -2, i16::MAX, i16::MIN] {
        let (commands, ended) = vote_under_post(score, 7);
        assert_eq!(commands.len(), 8);
        assert_eq!(commands[5], remove_vote());
        assert_eq!(
            commands[6],
            federate(CommentActivity::UndoLike, comment(50, 9, None, "text"))
        );
        assert_eq!(ended, voted_under_post());
    }
}

#[test]
fn the_author_of_a_post_hears_of_votes_even_of_ones_own() {
    let (_, ended) = vote_under_post(1, 8);
    assert_eq!(ended, voted_under_post());
}

#[test]
fn downvotes_can_be_disabled() {
    let request = like_request(-1);
    let (commands, ended) = drive(
        request.perform(None),
        vec![Reply::User(Ok(user(7))), Reply::Site(Ok(Site { enable_downvotes: false }))],
    );
    assert_eq!(commands, vec![authenticate(), ask(Action::ReadSite)]);
    assert_eq!(ended, refused(ApiError::DownvotesDisabled));
}

#[test]
fn a_vote_that_cannot_be_stored_is_refused() {
    let request = like_request(1);
    let replies = |removal: Reply<String>, vote: Option<Reply<String>>| {
        let mut replies = vec![
            Reply::User(Ok(user(7))),
            Reply::CommentView(Ok(view(9, None, "before"))),
            Reply::Post(Ok(post(false))),
            Reply::Checked(Ok(())),
            Reply::Comment(Ok(comment(50, 9, None, "text"))),
            removal,
        ];
        replies.extend(vote);
        replies
    };
    let (_, ended) = drive(
        request.perform(None),
        replies(Reply::Stored(Ok(())), Some(Reply::Stored(query()))),
    );
    assert_eq!(ended, refused(ApiError::CouldntLikeComment));
    let (_, ended) =
        drive(request.perform(None), replies(Reply::Stored(Ok(())), Some(Reply::Stored(pool()))));
    assert_eq!(ended, stopped("no connection"));
    let (_, ended) = drive(request.perform(None), replies(Reply::Stored(query()), None));
    assert_eq!(ended, stopped("bad query"));
}

// Listing comments.

fn list_request(community_id: Option<i32>) -> GetComments {
    GetComments {
        type_: "All".to_string(),
        sort: "Hot".to_string(),
        page: Some(2),
        limit: Some(10),
        community_id,
        auth: Some("token".to_string()),
    }
}

fn list_replies(user: Option<User>, found: Reply<String>) -> Vec<Reply<String>> {
    vec![
        Reply::OptionalUser(Ok(user)),
        Reply::ListingType(Ok(ListingType { name: "All".to_string() })),
        Reply::SortType(Ok(SortType { name: "Hot".to_string() })),
        found,
    ]
}

fn two_comments() -> Vec<CommentView> {
    vec![view(7, None, "one"), view(9, Some(40), "two")]
}

#[test]
fn comments_are_listed_and_the_room_of_all_communities_joined() {
    let request = list_request(None);
    let (commands, ended) = drive(
        request.perform(Some(3)),
        list_replies(Some(user(7)), Reply::CommentViews(Ok(two_comments()))),
    );
    assert_eq!(
        commands,
        vec![
            ask(Action::AuthenticateOptional(Some("token".to_string()))),
            ask(Action::ParseListingType { type_: "All".to_string() }),
            ask(Action::ParseSortType { sort: "Hot".to_string() }),
            ask(Action::ListComments(CommentQuery {
                listing_type: ListingType { name: "All".to_string() },
                sort: SortType { name: "Hot".to_string() },
                for_community_id: None,
                my_user_id: Some(7),
                page: Some(2),
                limit: Some(10),
            })),
        ]
    );
    assert_eq!(
        ended,
        Some(Outcome {
            message: Some(ChatMessage::JoinCommunityRoom { community_id: 0, id: 3 }),
            result: Ok(GetCommentsResponse { comments: two_comments() }),
        })
    );
}

#[test]
fn no_room_is_joined_for_one_community_or_without_a_connection() {
    for (community_id, websocket_id) in vec![(Some(30), Some(3)), (None, None), (Some(30), None)] {
        let request = list_request(community_id);
        let (_, ended) = drive(
            request.perform(websocket_id),
            list_replies(None, Reply::CommentViews(Ok(two_comments()))),
        );
        assert_eq!(
            ended,
            Some(Outcome {
                message: None,
                result: Ok(GetCommentsResponse { comments: two_comments() }),
            })
        );
    }
}

#[test]
fn a_list_that_cannot_be_had_is_refused() {
    let request = list_request(None);
    let (_, ended) =
        drive(request.perform(Some(3)), list_replies(None, Reply::CommentViews(query())));
    assert_eq!(ended, refused(ApiError::CouldntGetComments));
    let (_, ended) =
        drive(request.perform(Some(3)), list_replies(None, Reply::CommentViews(pool())));
    assert_eq!(ended, stopped("no connection"));
}

#[test]
fn unknown_listing_types_and_sort_orders_stop_a_list() {
    let request = list_request(None);
    let (_, ended) = drive(
        request.perform(None),
        vec![Reply::OptionalUser(Ok(None)), Reply::ListingType(other("no such type"))],
    );
    assert_eq!(ended, stopped("no such type"));
    let (_, ended) = drive(
        request.perform(None),
        vec![
            Reply::OptionalUser(Ok(None)),
            Reply::ListingType(Ok(ListingType { name: "All".to_string() })),
            Reply::SortType(other("no such order")),
        ],
    );
    assert_eq!(ended, stopped("no such order"));
}

// Errors.

#[test]
fn refusals_are_told_by_name() {
    assert_eq!(ApiError::Locked.message(), "locked");
    assert_eq!(ApiError::CouldntCreateComment.message(), "couldnt_create_comment");
    assert_eq!(ApiError::NoCommentEditAllowed.message(), "no_comment_edit_allowed");
    assert_eq!(ApiError::CouldntUpdateComment.message(), "couldnt_update_comment");
    assert_eq!(ApiError::CouldntLikeComment.message(), "couldnt_like_comment");
    assert_eq!(ApiError::CouldntSaveComment.message(), "couldnt_save_comment");
    assert_eq!(ApiError::DownvotesDisabled.message(), "downvotes_disabled");
    assert_eq!(ApiError::CouldntGetComments.message(), "couldnt_get_comments");
}

#[test]
fn a_failed_write_is_refused_and_a_lost_connection_handed_on() {
    let lost: DbError<String> = DbError::Pool("gone".to_string());
    assert_eq!(lost.refusal(ApiError::Locked), Failure::Other("gone".to_string()));
    let failed: DbError<String> = DbError::Query("bad".to_string());
    assert_eq!(failed.refusal(ApiError::Locked), Failure::Api(ApiError::Locked));
    let failed: DbError<String> = DbError::Query("bad".to_string());
    assert_eq!(failed.inner(), "bad".to_string());
}

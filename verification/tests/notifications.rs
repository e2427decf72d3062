//! Notifications about a comment, from the first lookup to the list of
//! recipients.

use lemmy_comments::notify::{
    send_local_notifs, Email, NotifCommand, NotifReply, NotifTurn,
};
use lemmy_comments::protocol::Turn;
use lemmy_comments::rows::{Comment, MentionData, Post, User, UserMentionForm};

type Commands = Vec<NotifCommand<Email>>;

fn user(id: i32, name: &str, email: Option<&str>, wants_email: bool) -> User {
    User {
        id,
        name: name.to_string(),
        email: email.map(|address| address.to_string()),
        send_notifications_to_email: wants_email,
        actor_id: format!("https://here.org/u/{}", name),
        details: "".to_string(),
    }
}

fn ann() -> User {
    user(1, "ann", Some("ann@mail.org"), true)
}

fn bob() -> User {
    user(2, "bob", Some("bob@mail.org"), false)
}

fn cid() -> User {
    user(3, "cid", None, true)
}

fn dora() -> User {
    user(4, "dora", Some("dora@mail.org"), true)
}

fn comment(id: i32, creator_id: i32, parent_id: Option<i32>) -> Comment {
    Comment {
        id,
        creator_id,
        parent_id,
        content: "hello".to_string(),
        details: "".to_string(),
    }
}

fn post_by(creator_id: i32) -> Post {
    Post { creator_id, community_id: 30, locked: false }
}

fn mention(name: &str, local: bool) -> MentionData {
    MentionData { name: name.to_string(), local }
}

/// The first turn for a comment by dora.
fn begin(mentions: Vec<MentionData>, parent_id: Option<i32>, do_send_email: bool) -> NotifTurn {
    send_local_notifs(
        mentions,
        comment(50, 4, parent_id),
        &dora(),
        post_by(1),
        do_send_email,
        &"here.org".to_string(),
    )
}

/// Hands over the replies, one by one. Gives back the commands, and the
/// recipients.
fn drive(first: NotifTurn, replies: Vec<NotifReply>) -> (Commands, Vec<i32>) {
    let mut commands = Vec::new();
    let mut replies = replies.into_iter();
    let mut turn = first;
    loop {
        match turn {
            Turn::Await(state, command) => {
                commands.push(command);
                match replies.next() {
                    Some(reply) => turn = state.resume(reply),
                    None => panic!("a reply is missing"),
                }
            }
            Turn::Finished(recipient_ids) => {
                assert!(replies.next().is_none());
                return (commands, recipient_ids);
            }
            Turn::Unexpected => panic!("a reply does not answer its command"),
        }
    }
}

fn find(name: &str) -> NotifCommand<Email> {
    NotifCommand::FindUser { name: name.to_string() }
}

fn record(recipient_id: i32) -> NotifCommand<Email> {
    NotifCommand::CreateMention(UserMentionForm { recipient_id, comment_id: 50, read: None })
}

fn mail(subject: &str, to_address: &str, to_name: &str, html: &str) -> NotifCommand<Email> {
    NotifCommand::SendEmail(Email {
        subject: subject.to_string(),
        to_address: to_address.to_string(),
        to_name: to_name.to_string(),
        html: html.to_string(),
    })
}

#[test]
fn mentioned_users_are_notified_in_order() {
    let (commands, recipient_ids) = drive(
        begin(vec![mention("ann", true), mention("bob", true), mention("cid", true)], None, true),
        vec![
            NotifReply::User(Some(ann())),
            NotifReply::Done,
            NotifReply::Done,
            NotifReply::User(Some(bob())),
            NotifReply::Done,
            NotifReply::User(Some(cid())),
            NotifReply::Done,
            NotifReply::User(None),
        ],
    );
    assert_eq!(
        commands,
        vec![
            find("ann"),
            record(1),
            mail(
                "here.org - Mentioned by dora",
                "ann@mail.org",
                "ann",
                "<h1>User Mention</h1><br><div>dora - hello</div><br>\
                 <a href=https://here.org/inbox>inbox</a>",
            ),
            find("bob"),
            record(2),
            find("cid"),
            record(3),
            NotifCommand::ReadUser { user_id: 1 },
        ]
    );
    assert_eq!(recipient_ids, vec![1, 2, 3]);
}

#[test]
fn strangers_and_the_commenter_are_not_looked_up() {
    let (commands, recipient_ids) = drive(
        begin(vec![mention("ann", false), mention("dora", true), mention("bob", true)], None, true),
        vec![
            NotifReply::User(Some(bob())),
            NotifReply::Done,
            NotifReply::User(None),
        ],
    );
    assert_eq!(commands, vec![find("bob"), record(2), NotifCommand::ReadUser { user_id: 1 }]);
    assert_eq!(recipient_ids, vec![2]);
}

#[test]
fn unknown_names_are_passed_over() {
    let (commands, recipient_ids) = drive(
        begin(vec![mention("nobody", true), mention("bob", true)], None, true),
        vec![
            NotifReply::User(None),
            NotifReply::User(Some(bob())),
            NotifReply::Done,
            NotifReply::User(None),
        ],
    );
    assert_eq!(commands[0], find("nobody"));
    assert_eq!(commands[1], find("bob"));
    assert_eq!(recipient_ids, vec![2]);
}

#[test]
fn the_author_of_the_post_hears_of_a_reply() {
    let (commands, recipient_ids) = drive(
        begin(vec![], None, true),
        vec![NotifReply::User(Some(ann())), NotifReply::Done],
    );
    assert_eq!(
        commands,
        vec![
            NotifCommand::ReadUser { user_id: 1 },
            mail(
                "here.org - Reply from dora",
                "ann@mail.org",
                "ann",
                "<h1>Post Reply</h1><br><div>dora - hello</div><br>\
                 <a href=https://here.org/inbox>inbox</a>",
            ),
        ]
    );
    assert_eq!(recipient_ids, vec![1]);
}

#[test]
fn the_author_of_the_parent_comment_hears_of_a_reply() {
    let (commands, recipient_ids) = drive(
        begin(vec![], Some(40), true),
        vec![
            NotifReply::Comment(Some(comment(40, 1, None))),
            NotifReply::User(Some(ann())),
            NotifReply::Done,
        ],
    );
    assert_eq!(
        commands,
        vec![
            NotifCommand::ReadComment { comment_id: 40 },
            NotifCommand::ReadUser { user_id: 1 },
            mail(
                "here.org - Reply from dora",
                "ann@mail.org",
                "ann",
                "<h1>Comment Reply</h1><br><div>dora - hello</div><br>\
                 <a href=https://here.org/inbox>inbox</a>",
            ),
        ]
    );
    assert_eq!(recipient_ids, vec![1]);
}

#[test]
fn nobody_hears_of_a_reply_to_oneself() {
    let (commands, recipient_ids) =
        drive(begin(vec![], Some(40), true), vec![NotifReply::Comment(Some(comment(40, 4, None)))]);
    assert_eq!(commands, vec![NotifCommand::ReadComment { comment_id: 40 }]);
    assert_eq!(recipient_ids, Vec::<i32>::new());

    let under_own_post = send_local_notifs(
        vec![],
        comment(50, 4, None),
        &dora(),
        post_by(4),
        true,
        &"here.org".to_string(),
    );
    assert_eq!(under_own_post, Turn::Finished(vec![]));
}

#[test]
fn a_missing_parent_comment_or_author_is_passed_over() {
    let (_, recipient_ids) =
        drive(begin(vec![], Some(40), true), vec![NotifReply::Comment(None)]);
    assert_eq!(recipient_ids, Vec::<i32>::new());

    let (_, recipient_ids) = drive(
        begin(vec![], Some(40), true),
        vec![NotifReply::Comment(Some(comment(40, 1, None))), NotifReply::User(None)],
    );
    assert_eq!(recipient_ids, Vec::<i32>::new());
}

#[test]
fn no_email_goes_out_unless_it_is_wanted() {
    let (commands, recipient_ids) = drive(
        begin(vec![mention("ann", true)], None, false),
        vec![
            NotifReply::User(Some(ann())),
            NotifReply::Done,
            NotifReply::User(Some(ann())),
        ],
    );
    assert_eq!(
        commands,
        vec![find("ann"), record(1), NotifCommand::ReadUser { user_id: 1 }]
    );
    assert_eq!(recipient_ids, vec![1, 1]);

    for recipient in vec![bob(), cid()] {
        let id = recipient.id;
        let (commands, recipient_ids) =
            drive(begin(vec![], None, true), vec![NotifReply::User(Some(recipient))]);
        assert_eq!(commands.len(), 1);
        assert_eq!(recipient_ids, vec![id]);
    }
}

#[test]
fn a_mentioned_parent_is_notified_twice() {
    let (_, recipient_ids) = drive(
        begin(vec![mention("ann", true)], None, true),
        vec![
            NotifReply::User(Some(ann())),
            NotifReply::Done,
            NotifReply::Done,
            NotifReply::User(Some(ann())),
            NotifReply::Done,
        ],
    );
    assert_eq!(recipient_ids, vec![1, 1]);
}

#[test]
fn notifications_reject_a_reply_to_another_command() {
    match begin(vec![mention("ann", true)], None, true) {
        Turn::Await(state, _) => assert_eq!(state.resume(NotifReply::Done), Turn::Unexpected),
        _ => panic!("a mention is looked up"),
    }
}

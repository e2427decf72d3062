//! Announcements of a private message, from the first command to the sending.

use lemmy_comments::private_message::{
    ActivityKind, BuildError, PmCommand, PmFailure, PmReply, PmTurn, PrivateMessage,
};
use lemmy_comments::protocol::Turn;
use lemmy_comments::rows::{DbError, User};

const NOTE: &str = "{\"type\":\"Note\",\"id\":\"https://here.org/pm/1\",\"content\":\"hi\"}";

const CONTEXT: &str = "\"@context\":\"https://www.w3.org/ns/activitystreams\"";

type Commands = Vec<PmCommand<String>>;

type Ended = Option<Result<(), PmFailure<String>>>;

fn message() -> PrivateMessage {
    PrivateMessage {
        recipient_id: 2,
        ap_id: "https://here.org/pm/1".to_string(),
        details: "hi".to_string(),
    }
}

fn user(id: i32, name: &str) -> User {
    User {
        id,
        name: name.to_string(),
        email: None,
        send_notifications_to_email: false,
        actor_id: format!("https://here.org/u/{}", name),
        details: "".to_string(),
    }
}

fn ann() -> User {
    user(1, "ann")
}

fn bob() -> User {
    user(2, "bob")
}

/// Hands over the replies, one by one. Gives back the commands, and how the
/// announcement ended if it did.
fn drive(first: PmTurn<String>, replies: Vec<PmReply<String>>) -> (Commands, Ended) {
    let mut commands = Vec::new();
    let mut replies = replies.into_iter();
    let mut turn = first;
    loop {
        match turn {
            Turn::Await(state, command) => {
                commands.push(command);
                match replies.next() {
                    Some(reply) => turn = state.resume(reply),
                    None => return (commands, None),
                }
            }
            Turn::Finished(result) => {
                assert!(replies.next().is_none());
                return (commands, Some(result));
            }
            Turn::Unexpected => panic!("a reply does not answer its command"),
        }
    }
}

fn note() -> PmReply<String> {
    PmReply::Note(Ok(NOTE.to_string()))
}

fn recipient() -> PmReply<String> {
    PmReply::User(Ok(bob()))
}

fn address(text: &str) -> PmReply<String> {
    PmReply::Url(Ok(text.to_string()))
}

fn failed<T>() -> Result<T, String> {
    Err("failed".to_string())
}

fn addresses() -> Vec<PmReply<String>> {
    vec![
        address("https://here.org/activities/1"),
        address("https://there.org/u/bob"),
        address("https://there.org/inbox"),
        PmReply::Sent(Ok(())),
    ]
}

fn send(kind: ActivityKind, activity: String) -> PmCommand<String> {
    PmCommand::Send {
        kind,
        activity,
        creator: ann(),
        inbox: "https://there.org/inbox".to_string(),
    }
}

fn shown(kind: &str) -> String {
    format!(
        "{{{},\"actor\":\"https://here.org/u/ann\",\
         \"id\":\"https://here.org/activities/1\",\
         \"object\":{{\"content\":\"hi\",\"id\":\"https://here.org/pm/1\",\"type\":\"Note\"}},\
         \"to\":\"https://there.org/u/bob\",\"type\":\"{}\"}}",
        CONTEXT, kind
    )
}

fn deletion() -> String {
    format!(
        "{{{},\"actor\":\"https://here.org/u/ann\",\
         \"id\":\"https://here.org/activities/1\",\
         \"object\":\"https://here.org/pm/1\",\
         \"to\":\"https://there.org/u/bob\",\"type\":\"Delete\"}}",
        CONTEXT
    )
}

#[test]
fn a_new_message_is_announced() {
    let (message, creator) = (message(), ann());
    let mut replies = vec![note(), recipient()];
    replies.extend(addresses());
    let (commands, ended) = drive(message.send_create(&creator), replies);
    assert_eq!(
        commands,
        vec![
            PmCommand::ToApub(message.clone()),
            PmCommand::ReadUser { user_id: 2 },
            PmCommand::GenerateActivityId(ActivityKind::Create),
            PmCommand::ActorId(bob()),
            PmCommand::InboxUrl(bob()),
            send(ActivityKind::Create, shown("Create")),
        ]
    );
    assert_eq!(ended, Some(Ok(())));
}

#[test]
fn a_changed_message_is_announced() {
    let (message, creator) = (message(), ann());
    let mut replies = vec![note(), recipient()];
    replies.extend(addresses());
    let (commands, ended) = drive(message.send_update(&creator), replies);
    assert_eq!(commands[2], PmCommand::GenerateActivityId(ActivityKind::Update));
    assert_eq!(commands[5], send(ActivityKind::Update, shown("Update")));
    assert_eq!(ended, Some(Ok(())));
}

#[test]
fn a_deletion_is_announced() {
    let (message, creator) = (message(), ann());
    let mut replies = vec![recipient()];
    replies.extend(addresses());
    let (commands, ended) = drive(message.send_delete(&creator), replies);
    assert_eq!(
        commands,
        vec![
            PmCommand::ReadUser { user_id: 2 },
            PmCommand::GenerateActivityId(ActivityKind::Delete),
            PmCommand::ActorId(bob()),
            PmCommand::InboxUrl(bob()),
            send(ActivityKind::Delete, deletion()),
        ]
    );
    assert_eq!(ended, Some(Ok(())));
}

#[test]
fn a_restoration_undoes_a_deletion() {
    let (message, creator) = (message(), ann());
    let (commands, ended) = drive(
        message.send_undo_delete(&creator),
        vec![
            recipient(),
            address("https://here.org/activities/1"),
            address("https://there.org/u/bob"),
            address("https://here.org/activities/2"),
            address("https://there.org/u/bob"),
            address("https://there.org/inbox"),
            PmReply::Sent(Ok(())),
        ],
    );
    let undo = format!(
        "{{{},\"actor\":\"https://here.org/u/ann\",\
         \"id\":\"https://here.org/activities/2\",\"object\":{},\
         \"to\":\"https://there.org/u/bob\",\"type\":\"Undo\"}}",
        CONTEXT,
        deletion()
    );
    assert_eq!(
        commands,
        vec![
            PmCommand::ReadUser { user_id: 2 },
            PmCommand::GenerateActivityId(ActivityKind::Delete),
            PmCommand::ActorId(bob()),
            PmCommand::GenerateActivityId(ActivityKind::Undo),
            PmCommand::ActorId(bob()),
            PmCommand::InboxUrl(bob()),
            send(ActivityKind::Undo, undo),
        ]
    );
    assert_eq!(ended, Some(Ok(())));
}

#[test]
fn an_address_is_written_out_as_parsed() {
    let mut message = message();
    message.ap_id = "HTTPS://Here.org".to_string();
    let creator = ann();
    let mut replies = vec![recipient()];
    replies.extend(addresses());
    let (commands, _) = drive(message.send_delete(&creator), replies);
    assert_eq!(
        commands[4],
        send(
            ActivityKind::Delete,
            deletion().replace("https://here.org/pm/1", "https://here.org/")
        )
    );
}

#[test]
fn a_message_without_an_address_is_not_deleted() {
    let mut message = message();
    message.ap_id = "no address".to_string();
    let creator = ann();
    let (commands, ended) = drive(message.send_delete(&creator), vec![recipient()]);
    assert_eq!(commands, vec![PmCommand::ReadUser { user_id: 2 }]);
    let relative = BuildError::InvalidAddress(url::ParseError::RelativeUrlWithoutBase);
    assert_eq!(ended, Some(Err(PmFailure::Build(relative))));
    message.ap_id = "https://here.org:port/".to_string();
    let (_, ended) = drive(message.send_undo_delete(&creator), vec![recipient()]);
    let port = BuildError::InvalidAddress(url::ParseError::InvalidPort);
    assert_eq!(ended, Some(Err(PmFailure::Build(port))));
}

#[test]
fn a_note_that_is_no_object_is_not_announced() {
    let (message, creator) = (message(), ann());
    let (commands, ended) = drive(
        message.send_create(&creator),
        vec![PmReply::Note(Ok("{".to_string())), recipient()],
    );
    assert_eq!(commands.len(), 2);
    assert_eq!(ended, Some(Err(PmFailure::Build(BuildError::InvalidActivity))));
}

#[test]
fn an_activity_needs_two_addresses() {
    let (message, creator) = (message(), ann());
    for (id, to) in vec![
        ("no address", "https://there.org/u/bob"),
        ("https://here.org/activities/1", "no address"),
    ] {
        let (_, ended) = drive(
            message.send_create(&creator),
            vec![note(), recipient(), address(id), address(to)],
        );
        assert_eq!(ended, Some(Err(PmFailure::Build(BuildError::InvalidActivity))));
        let (_, ended) = drive(
            message.send_update(&creator),
            vec![note(), recipient(), address(id), address(to)],
        );
        assert_eq!(ended, Some(Err(PmFailure::Build(BuildError::InvalidActivity))));
        let (_, ended) =
            drive(message.send_delete(&creator), vec![recipient(), address(id), address(to)]);
        assert_eq!(ended, Some(Err(PmFailure::Build(BuildError::InvalidActivity))));
        let (_, ended) =
            drive(message.send_undo_delete(&creator), vec![recipient(), address(id), address(to)]);
        assert_eq!(ended, Some(Err(PmFailure::Build(BuildError::InvalidActivity))));
        let (_, ended) = drive(
            message.send_undo_delete(&creator),
            vec![
                recipient(),
                address("https://here.org/activities/1"),
                address("https://there.org/u/bob"),
                address(id),
                address(to),
            ],
        );
        assert_eq!(ended, Some(Err(PmFailure::Build(BuildError::InvalidActivity))));
    }
}

#[test]
fn an_error_ends_an_announcement() {
    let (message, creator) = (message(), ann());
    let other = Some(Err(PmFailure::Other("failed".to_string())));

    let (_, ended) = drive(message.send_create(&creator), vec![PmReply::Note(failed())]);
    assert_eq!(ended, other);

    let lost = PmReply::User(Err(DbError::Pool("failed".to_string())));
    let (_, ended) = drive(message.send_create(&creator), vec![note(), lost]);
    assert_eq!(ended, other);

    let missing = PmReply::User(Err(DbError::Query("failed".to_string())));
    let (_, ended) = drive(message.send_delete(&creator), vec![missing]);
    assert_eq!(ended, other);

    for n in 0..3 {
        let mut replies = vec![recipient()];
        replies.extend(addresses().into_iter().take(n));
        replies.push(PmReply::Url(failed()));
        let (_, ended) = drive(message.send_delete(&creator), replies);
        assert_eq!(ended, other);
    }

    let mut replies = vec![recipient()];
    replies.extend(addresses().into_iter().take(3));
    replies.push(PmReply::Sent(failed()));
    let (_, ended) = drive(message.send_delete(&creator), replies);
    assert_eq!(ended, other);
}

#[test]
fn a_text_that_was_built_elsewhere_is_sent_as_it_is() {
    let (message, creator) = (message(), ann());
    let mut turn: PmTurn<String> = message.send_delete(&creator);
    let steps = vec![
        (recipient(), Ok("an address")),
        (address("id"), Err(BuildError::InvalidActivity)),
        (address("to"), Ok("an activity")),
        (address("https://there.org/inbox"), Err(BuildError::InvalidActivity)),
    ];
    for (reply, built) in steps {
        turn = match turn {
            Turn::Await(state, _) => state.proceed(reply, built.map(|text| text.to_string())),
            _ => panic!("the announcement has ended"),
        };
    }
    match turn {
        Turn::Await(_, command) => {
            assert_eq!(command, send(ActivityKind::Delete, "an activity".to_string()))
        }
        _ => panic!("the announcement has ended"),
    }
}

#[test]
fn announcements_reject_a_reply_to_another_command() {
    let (message, creator) = (message(), ann());
    match message.send_create::<String>(&creator) {
        Turn::Await(state, _) => {
            assert_eq!(state.resume(PmReply::<String>::Sent(Ok(()))), Turn::Unexpected)
        }
        _ => panic!("an announcement begins with a command"),
    }
}

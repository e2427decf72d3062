//! What the views of commands, turns and answers hold: everything that the values
//! themselves hold.

use crate::list::GetCommentsResponse;
use crate::notify::{notif_model, Email, NotifCommand, NotifState, NotifTurn};
use crate::private_message::{pm_model, PmCommand, PmStage, PmState, PmTurn};
use crate::protocol::{
    ChatMessage, Command, CommentResponse, CommentTurn, Outcome, Turn,
};
use crate::rows::{ApiError, MentionData};
use vstd::prelude::*;

verus! {

/// The view of an answer holds the comment, those who are to hear of it, and the
/// form.
pub proof fn answers_are_shown(response: CommentResponse)
    ensures
        response@.comment == response.comment,
        response@.recipient_ids == response.recipient_ids@,
        response@.form_id == response.form_id,
{
}

/// The view of a list of comments holds the comments.
pub proof fn lists_are_shown(response: GetCommentsResponse)
    ensures
        response@ == response.comments@,
{
}

/// The view of a command holds the command.
pub proof fn commands_are_shown(command: Command<Vec<MentionData>>)
    ensures
        match command {
            Command::Run(action) => command@ == Command::<Seq<MentionData>>::Run(action),
            Command::SendLocalNotifs { mentions, comment, user, post, do_send_email } => {
                &&& command@ matches Command::SendLocalNotifs {
                    mentions: shown,
                    comment: c,
                    user: u,
                    post: p,
                    do_send_email: d,
                }
                &&& shown == mentions@
                &&& c == comment
                &&& u == user
                &&& p == post
                &&& d == do_send_email
            },
        },
{
}

/// The view of an outcome holds the message for the chat server and the result.
pub proof fn outcomes_are_shown<R: View, E>(outcome: Outcome<CommentResponse, R, E>)
    ensures
        match outcome.message {
            Some(ChatMessage::SendComment { op, comment, websocket_id }) => {
                &&& outcome@.message matches Some(
                    ChatMessage::SendComment { op: o, comment: c, websocket_id: w },
                )
                &&& o == op
                &&& c == comment@
                &&& w == websocket_id
            },
            Some(ChatMessage::JoinCommunityRoom { community_id, id }) => {
                &&& outcome@.message matches Some(
                    ChatMessage::JoinCommunityRoom { community_id: c, id: i },
                )
                &&& c == community_id
                &&& i == id
            },
            None => outcome@.message is None,
        },
        match outcome.result {
            Ok(response) => outcome@.result matches Ok(shown) && shown == response@,
            Err(failure) => outcome@.result matches Err(shown) && shown == failure,
        },
{
}

/// The model of a turn holds its state, and the views of its command and of its
/// outcome.
pub proof fn turns_are_shown<S, R: View, E>(turn: CommentTurn<S, R, E>)
    ensures
        match turn {
            Turn::Await(state, command) => turn.model() matches Turn::Await(s, c) && s == state
                && c == command@,
            Turn::Finished(outcome) => turn.model() matches Turn::Finished(o) && o == outcome@,
            Turn::Unexpected => turn.model() is Unexpected,
        },
{
}

/// The view of an e-mail holds its texts.
pub proof fn emails_are_shown(email: Email)
    ensures
        email@.subject == email.subject@,
        email@.to_address == email.to_address@,
        email@.to_name == email.to_name@,
        email@.html == email.html@,
{
}

/// The view of notifications holds what they are about, who has been found and who
/// has yet to be looked up, the next one first.
pub proof fn notifications_are_shown(state: NotifState)
    ensures
        state@.occasion == state.occasion,
        state@.recipient_ids == state.recipient_ids@,
        state@.stage == state.stage,
        state@.remaining.len() == state.remaining@.len(),
        forall|i: int|
            0 <= i < state.remaining@.len() ==> #[trigger] state@.remaining[i]
                == state.remaining@[state.remaining@.len() - 1 - i],
{
}

/// The model of a turn of the notifications holds the views of its state, of its
/// command and of its end.
pub proof fn notification_turns_are_shown(turn: NotifTurn)
    ensures
        match turn {
            Turn::Await(state, command) => {
                &&& notif_model(turn) matches Turn::Await(s, c)
                &&& s == state@
                &&& match command {
                    NotifCommand::FindUser { name } => c matches NotifCommand::FindUser { name: n }
                        && n == name,
                    NotifCommand::CreateMention(form) => c matches NotifCommand::CreateMention(f)
                        && f == form,
                    NotifCommand::SendEmail(email) => c matches NotifCommand::SendEmail(e) && e
                        == email@,
                    NotifCommand::ReadComment { comment_id } => {
                        c matches NotifCommand::ReadComment { comment_id: n } && n == comment_id
                    },
                    NotifCommand::ReadUser { user_id } => c matches NotifCommand::ReadUser {
                        user_id: n,
                    } && n == user_id,
                }
            },
            Turn::Finished(recipient_ids) => notif_model(turn) matches Turn::Finished(shown)
                && shown == recipient_ids@,
            Turn::Unexpected => notif_model(turn) is Unexpected,
        },
{
}

/// The view of an announcement holds the message, its creator and what has been
/// learned so far.
pub proof fn announcements_are_shown<'a>(state: PmState<'a, String>)
    ensures
        state@.announcement == state.announcement,
        state@.message == state.message,
        state@.creator == state.creator,
        match state.stage {
            PmStage::Note => state@.stage is Note,
            PmStage::Recipient { note } => state@.stage matches PmStage::Recipient { note: n } && n
                == note,
            PmStage::Id { recipient, note } => state@.stage matches PmStage::Id {
                recipient: r,
                note: n,
            } && r == recipient && n == note,
            PmStage::To { recipient, note, id } => state@.stage matches PmStage::To {
                recipient: r,
                note: n,
                id: i,
            } && r == recipient && n == note && i == id,
            PmStage::UndoId { recipient, object } => state@.stage matches PmStage::UndoId {
                recipient: r,
                object: o,
            } && r == recipient && o == object@,
            PmStage::UndoTo { recipient, object, id } => state@.stage matches PmStage::UndoTo {
                recipient: r,
                object: o,
                id: i,
            } && r == recipient && o == object@ && i == id,
            PmStage::Inbox { activity } => state@.stage matches PmStage::Inbox { activity: a } && a
                == activity@,
            PmStage::Sending => state@.stage is Sending,
        },
{
}

/// The model of a turn of an announcement holds the views of its state and of its
/// command, and its end.
pub proof fn announcement_turns_are_shown<'a, E>(turn: PmTurn<'a, E>)
    ensures
        match turn {
            Turn::Await(state, command) => {
                &&& pm_model(turn) matches Turn::Await(s, c)
                &&& s == state@
                &&& match command {
                    PmCommand::ToApub(message) => c matches PmCommand::ToApub(m) && m == message,
                    PmCommand::ReadUser { user_id } => c matches PmCommand::ReadUser { user_id: n }
                        && n == user_id,
                    PmCommand::GenerateActivityId(kind) => c matches PmCommand::GenerateActivityId(
                        k,
                    ) && k == kind,
                    PmCommand::ActorId(user) => c matches PmCommand::ActorId(u) && u == user,
                    PmCommand::InboxUrl(user) => c matches PmCommand::InboxUrl(u) && u == user,
                    PmCommand::Send { kind, activity, creator, inbox } => {
                        &&& c matches PmCommand::Send {
                            kind: k,
                            activity: a,
                            creator: by,
                            inbox: to,
                        }
                        &&& k == kind
                        &&& a == activity@
                        &&& by == creator
                        &&& to == inbox
                    },
                }
            },
            Turn::Finished(result) => pm_model(turn) matches Turn::Finished(shown) && shown
                == result,
            Turn::Unexpected => pm_model(turn) is Unexpected,
        },
{
}

/// The words that a client is told when a request is refused.
pub proof fn refusals_have_words()
    ensures
        ApiError::Locked.spec_message()@ == "locked"@,
        ApiError::CouldntCreateComment.spec_message()@ == "couldnt_create_comment"@,
        ApiError::NoCommentEditAllowed.spec_message()@ == "no_comment_edit_allowed"@,
        ApiError::CouldntUpdateComment.spec_message()@ == "couldnt_update_comment"@,
        ApiError::CouldntLikeComment.spec_message()@ == "couldnt_like_comment"@,
        ApiError::CouldntSaveComment.spec_message()@ == "couldnt_save_comment"@,
        ApiError::DownvotesDisabled.spec_message()@ == "downvotes_disabled"@,
        ApiError::CouldntGetComments.spec_message()@ == "couldnt_get_comments"@,
{
}

} // verus!

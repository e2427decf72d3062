//! What announcing a private message comes to.

use crate::activity::{create_json, delete_json, object_json, parsed_url, undo_json, update_json};
use crate::private_message::{
    after, ActivityKind, Announcement, BuildError, PmCommand, PmFailure, PmReply, PmStage,
    PmState, PmTurnModel, PrivateMessage,
};
use crate::protocol::Turn;
use crate::rows::{DbError, User};
use vstd::prelude::*;

verus! {

/// Whether an announcement waits for `command` to be carried out.
pub open spec fn waits<'a, E>(turn: PmTurnModel<'a, E>, command: PmCommand<Seq<char>>) -> bool {
    turn matches Turn::Await(_, pending) && pending == command
}

/// Whether an announcement has failed, for this reason.
pub open spec fn fails<'a, E>(turn: PmTurnModel<'a, E>, failure: PmFailure<E>) -> bool {
    turn matches Turn::Finished(Err(told)) && told == failure
}

proof fn lemma_pushed<E>()
    ensures
        forall|replies: Seq<PmReply<E>>, reply: PmReply<E>|
            (#[trigger] replies.push(reply)).drop_last() == replies,
{
    assert forall|replies: Seq<PmReply<E>>, reply: PmReply<E>|
        (#[trigger] replies.push(reply)).drop_last() == replies by {
        assert(replies.push(reply).drop_last() =~= replies);
    }
}

/// Announcing a new message, step by step: one `Create` of its note goes to the inbox
/// of its recipient.
pub proof fn a_new_message_is_announced<E>(
    message: &PrivateMessage,
    creator: &User,
    note: String,
    recipient: User,
    id: String,
    to: String,
    inbox: String,
    error: E,
)
    ensures
        ({
            let first = message.begin::<E>(Announcement::Create, creator);
            let r0 = Seq::<PmReply<E>>::empty();
            let r1 = r0.push(PmReply::Note(Ok(note)));
            let r2 = r1.push(PmReply::User(Ok(recipient)));
            let r3 = r2.push(PmReply::Url(Ok(id)));
            let r4 = r3.push(PmReply::Url(Ok(to)));
            let r5 = r4.push(PmReply::Url(Ok(inbox)));
            let r6 = r5.push(PmReply::Sent(Ok(())));
            &&& waits(after(first, r0), PmCommand::ToApub(*message))
            &&& fails(after(first, r0.push(PmReply::Note(Err(error)))), PmFailure::Other(error))
            &&& waits(after(first, r1), PmCommand::ReadUser { user_id: message.recipient_id })
            &&& fails(
                after(first, r1.push(PmReply::User(Err(DbError::Pool(error))))),
                PmFailure::Other(error),
            )
            &&& fails(
                after(first, r1.push(PmReply::User(Err(DbError::Query(error))))),
                PmFailure::Other(error),
            )
            &&& object_json(note@) is None ==> fails(
                after(first, r2),
                PmFailure::Build(BuildError::InvalidActivity),
            )
            &&& object_json(note@) is Some ==> {
                &&& waits(after(first, r2), PmCommand::GenerateActivityId(ActivityKind::Create))
                &&& fails(after(first, r2.push(PmReply::Url(Err(error)))), PmFailure::Other(error))
                &&& waits(after(first, r3), PmCommand::ActorId(recipient))
                &&& fails(after(first, r3.push(PmReply::Url(Err(error)))), PmFailure::Other(error))
                &&& match create_json(creator.actor_id@, note@, id@, to@) {
                    Some(activity) => {
                        &&& waits(after(first, r4), PmCommand::InboxUrl(recipient))
                        &&& fails(
                            after(first, r4.push(PmReply::Url(Err(error)))),
                            PmFailure::Other(error),
                        )
                        &&& waits(
                            after(first, r5),
                            PmCommand::Send {
                                kind: ActivityKind::Create,
                                activity,
                                creator: *creator,
                                inbox,
                            },
                        )
                        &&& fails(
                            after(first, r5.push(PmReply::Sent(Err(error)))),
                            PmFailure::Other(error),
                        )
                        &&& after(first, r6) matches Turn::Finished(Ok(_))
                    },
                    None => fails(after(first, r4), PmFailure::Build(BuildError::InvalidActivity)),
                }
            }
        }),
{
    lemma_pushed::<E>();
}

/// Announcing a changed message, step by step: one `Update` of its note goes to the
/// inbox of its recipient.
pub proof fn a_changed_message_is_announced<E>(
    message: &PrivateMessage,
    creator: &User,
    note: String,
    recipient: User,
    id: String,
    to: String,
    inbox: String,
    error: E,
)
    ensures
        ({
            let first = message.begin::<E>(Announcement::Update, creator);
            let r0 = Seq::<PmReply<E>>::empty();
            let r1 = r0.push(PmReply::Note(Ok(note)));
            let r2 = r1.push(PmReply::User(Ok(recipient)));
            let r3 = r2.push(PmReply::Url(Ok(id)));
            let r4 = r3.push(PmReply::Url(Ok(to)));
            let r5 = r4.push(PmReply::Url(Ok(inbox)));
            let r6 = r5.push(PmReply::Sent(Ok(())));
            &&& waits(after(first, r0), PmCommand::ToApub(*message))
            &&& fails(after(first, r0.push(PmReply::Note(Err(error)))), PmFailure::Other(error))
            &&& waits(after(first, r1), PmCommand::ReadUser { user_id: message.recipient_id })
            &&& fails(
                after(first, r1.push(PmReply::User(Err(DbError::Pool(error))))),
                PmFailure::Other(error),
            )
            &&& fails(
                after(first, r1.push(PmReply::User(Err(DbError::Query(error))))),
                PmFailure::Other(error),
            )
            &&& object_json(note@) is None ==> fails(
                after(first, r2),
                PmFailure::Build(BuildError::InvalidActivity),
            )
            &&& object_json(note@) is Some ==> {
                &&& waits(after(first, r2), PmCommand::GenerateActivityId(ActivityKind::Update))
                &&& fails(after(first, r2.push(PmReply::Url(Err(error)))), PmFailure::Other(error))
                &&& waits(after(first, r3), PmCommand::ActorId(recipient))
                &&& fails(after(first, r3.push(PmReply::Url(Err(error)))), PmFailure::Other(error))
                &&& match update_json(creator.actor_id@, note@, id@, to@) {
                    Some(activity) => {
                        &&& waits(after(first, r4), PmCommand::InboxUrl(recipient))
                        &&& fails(
                            after(first, r4.push(PmReply::Url(Err(error)))),
                            PmFailure::Other(error),
                        )
                        &&& waits(
                            after(first, r5),
                            PmCommand::Send {
                                kind: ActivityKind::Update,
                                activity,
                                creator: *creator,
                                inbox,
                            },
                        )
                        &&& fails(
                            after(first, r5.push(PmReply::Sent(Err(error)))),
                            PmFailure::Other(error),
                        )
                        &&& after(first, r6) matches Turn::Finished(Ok(_))
                    },
                    None => fails(after(first, r4), PmFailure::Build(BuildError::InvalidActivity)),
                }
            }
        }),
{
    lemma_pushed::<E>();
}

/// Announcing that a message was deleted, step by step: one `Delete` of its address
/// goes to the inbox of its recipient, and an address that is none is told with the
/// reason why.
pub proof fn a_deletion_is_announced<E>(
    message: &PrivateMessage,
    creator: &User,
    recipient: User,
    id: String,
    to: String,
    inbox: String,
    error: E,
)
    ensures
        ({
            let first = message.begin::<E>(Announcement::Delete, creator);
            let r0 = Seq::<PmReply<E>>::empty();
            let r1 = r0.push(PmReply::User(Ok(recipient)));
            let r2 = r1.push(PmReply::Url(Ok(id)));
            let r3 = r2.push(PmReply::Url(Ok(to)));
            let r4 = r3.push(PmReply::Url(Ok(inbox)));
            let r5 = r4.push(PmReply::Sent(Ok(())));
            &&& waits(after(first, r0), PmCommand::ReadUser { user_id: message.recipient_id })
            &&& fails(
                after(first, r0.push(PmReply::User(Err(DbError::Pool(error))))),
                PmFailure::Other(error),
            )
            &&& fails(
                after(first, r0.push(PmReply::User(Err(DbError::Query(error))))),
                PmFailure::Other(error),
            )
            &&& parsed_url(message.ap_id@) matches Err(reason) ==> fails(
                after(first, r1),
                PmFailure::Build(BuildError::InvalidAddress(reason)),
            )
            &&& parsed_url(message.ap_id@) is Ok ==> {
                &&& waits(after(first, r1), PmCommand::GenerateActivityId(ActivityKind::Delete))
                &&& fails(after(first, r1.push(PmReply::Url(Err(error)))), PmFailure::Other(error))
                &&& waits(after(first, r2), PmCommand::ActorId(recipient))
                &&& fails(after(first, r2.push(PmReply::Url(Err(error)))), PmFailure::Other(error))
                &&& match delete_json(creator.actor_id@, message.ap_id@, id@, to@) {
                    Some(activity) => {
                        &&& waits(after(first, r3), PmCommand::InboxUrl(recipient))
                        &&& fails(
                            after(first, r3.push(PmReply::Url(Err(error)))),
                            PmFailure::Other(error),
                        )
                        &&& waits(
                            after(first, r4),
                            PmCommand::Send {
                                kind: ActivityKind::Delete,
                                activity,
                                creator: *creator,
                                inbox,
                            },
                        )
                        &&& fails(
                            after(first, r4.push(PmReply::Sent(Err(error)))),
                            PmFailure::Other(error),
                        )
                        &&& after(first, r5) matches Turn::Finished(Ok(_))
                    },
                    None => fails(after(first, r3), PmFailure::Build(BuildError::InvalidActivity)),
                }
            }
        }),
{
    lemma_pushed::<E>();
}

/// Announcing that a message is back, step by step: one `Undo` of a `Delete` of its
/// address goes to the inbox of its recipient, and an address that is none is told
/// with the reason why.
pub proof fn a_restoration_is_announced<E>(
    message: &PrivateMessage,
    creator: &User,
    recipient: User,
    id: String,
    to: String,
    undo_id: String,
    undo_to: String,
    inbox: String,
    error: E,
)
    ensures
        ({
            let first = message.begin::<E>(Announcement::UndoDelete, creator);
            let r0 = Seq::<PmReply<E>>::empty();
            let r1 = r0.push(PmReply::User(Ok(recipient)));
            let r2 = r1.push(PmReply::Url(Ok(id)));
            let r3 = r2.push(PmReply::Url(Ok(to)));
            let r4 = r3.push(PmReply::Url(Ok(undo_id)));
            let r5 = r4.push(PmReply::Url(Ok(undo_to)));
            let r6 = r5.push(PmReply::Url(Ok(inbox)));
            let r7 = r6.push(PmReply::Sent(Ok(())));
            &&& waits(after(first, r0), PmCommand::ReadUser { user_id: message.recipient_id })
            &&& fails(
                after(first, r0.push(PmReply::User(Err(DbError::Pool(error))))),
                PmFailure::Other(error),
            )
            &&& fails(
                after(first, r0.push(PmReply::User(Err(DbError::Query(error))))),
                PmFailure::Other(error),
            )
            &&& parsed_url(message.ap_id@) matches Err(reason) ==> fails(
                after(first, r1),
                PmFailure::Build(BuildError::InvalidAddress(reason)),
            )
            &&& parsed_url(message.ap_id@) is Ok ==> {
                &&& waits(after(first, r1), PmCommand::GenerateActivityId(ActivityKind::Delete))
                &&& fails(after(first, r1.push(PmReply::Url(Err(error)))), PmFailure::Other(error))
                &&& waits(after(first, r2), PmCommand::ActorId(recipient))
                &&& fails(after(first, r2.push(PmReply::Url(Err(error)))), PmFailure::Other(error))
                &&& match delete_json(creator.actor_id@, message.ap_id@, id@, to@) {
                    Some(deletion) => {
                        &&& waits(
                            after(first, r3),
                            PmCommand::GenerateActivityId(ActivityKind::Undo),
                        )
                        &&& fails(
                            after(first, r3.push(PmReply::Url(Err(error)))),
                            PmFailure::Other(error),
                        )
                        &&& waits(after(first, r4), PmCommand::ActorId(recipient))
                        &&& fails(
                            after(first, r4.push(PmReply::Url(Err(error)))),
                            PmFailure::Other(error),
                        )
                        &&& match undo_json(creator.actor_id@, deletion, undo_id@, undo_to@) {
                            Some(activity) => {
                                &&& waits(after(first, r5), PmCommand::InboxUrl(recipient))
                                &&& fails(
                                    after(first, r5.push(PmReply::Url(Err(error)))),
                                    PmFailure::Other(error),
                                )
                                &&& waits(
                                    after(first, r6),
                                    PmCommand::Send {
                                        kind: ActivityKind::Undo,
                                        activity,
                                        creator: *creator,
                                        inbox,
                                    },
                                )
                                &&& fails(
                                    after(first, r6.push(PmReply::Sent(Err(error)))),
                                    PmFailure::Other(error),
                                )
                                &&& after(first, r7) matches Turn::Finished(Ok(_))
                            },
                            None => fails(
                                after(first, r5),
                                PmFailure::Build(BuildError::InvalidActivity),
                            ),
                        }
                    },
                    None => fails(after(first, r3), PmFailure::Build(BuildError::InvalidActivity)),
                }
            }
        }),
{
    lemma_pushed::<E>();
}

/// A text that has been built is what goes on: into the activity that is sent, or into
/// the undoing. Why a text could not be built is what the announcement fails with.
pub proof fn built_texts_are_used<'a, E>(
    state: PmState<'a, Seq<char>>,
    recipient: User,
    to: String,
    text: Seq<char>,
    reason: BuildError,
)
    ensures
        ({
            let user = PmReply::<E>::User(Ok(recipient));
            let address = PmReply::<E>::Url(Ok(to));
            &&& state.stage is Recipient ==> fails(
                state.proceeding(user, Err(reason)),
                PmFailure::Build(reason),
            )
            &&& state.stage is To || state.stage is UndoTo ==> {
                &&& fails(state.proceeding(address, Err(reason)), PmFailure::Build(reason))
                &&& state.proceeding(address, Ok(text)) matches Turn::Await(next, _)
                &&& if state.stage is To && state.announcement == Announcement::UndoDelete {
                    next.stage matches PmStage::UndoId { object, .. } && object == text
                } else {
                    next.stage matches PmStage::Inbox { activity } && activity == text
                }
            }
        }),
{
}

} // verus!

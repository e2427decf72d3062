//! What notifying those whom a comment concerns comes to.

use crate::notify::{
    after, begin, emails_are_wanted, ids, issued, lemma_targets_first, listed, targets, Directory,
    EmailModel, Notice, NotifCommand, NotifModel, NotifReply, NotifStage, Occasion,
};
use crate::protocol::Turn;
use crate::rows::{MentionData, User, UserMentionForm};
use vstd::prelude::*;

verus! {

/// Whether `user` gets an e-mail: if e-mails are sent at all, to a user who wants
/// them and has an address.
pub open spec fn is_mailed(occasion: Occasion, user: User) -> bool {
    occasion.do_send_email && user.send_notifications_to_email && user.email is Some
}

/// The end of an e-mail: what was written, and by whom, and where to read it.
pub open spec fn quote(occasion: Occasion) -> Seq<char> {
    occasion.user.name@ + " - "@ + occasion.comment.content@ + "</div><br><a href=https://"@
        + occasion.hostname@ + "/inbox>inbox</a>"@
}

proof fn lemma_same_commands(book: Directory, left: NotifModel, right: NotifModel)
    requires
        left.occasion == right.occasion,
        left.remaining == right.remaining,
    ensures
        book.commands(left.onward()) == book.commands(right.onward()),
    decreases left.remaining.len(),
{
    reveal_with_fuel(Directory::commands, 4);
    if left.remaining.len() > 0 {
        let name = left.remaining.first();
        let l = NotifModel {
            remaining: left.remaining.drop_first(),
            stage: NotifStage::Finding,
            ..left
        };
        let r = NotifModel {
            remaining: right.remaining.drop_first(),
            stage: NotifStage::Finding,
            ..right
        };
        match (book.by_name)(name) {
            Some(user) => {
                let stage = NotifStage::Recording { recipient: user };
                lemma_same_commands(book, l.with(user).at(stage), r.with(user).at(stage));
                let (l, r) = (l.with(user).at(stage), r.with(user).at(stage));
                assert(l.at(NotifStage::Mailing).onward() == l.onward());
                assert(r.at(NotifStage::Mailing).onward() == r.onward());
            },
            None => lemma_same_commands(book, l, r),
        }
    }
}

/// What the first of several mentions adds. If it names a user of this site other
/// than the commenter, that user is looked up; if they are there, a mention is
/// stored for them, they get an e-mail if they want one, and they come before the
/// other recipients. Nothing else changes, whatever the comment replies to.
pub proof fn a_mention_adds_its_user(
    book: Directory,
    occasion: Occasion,
    mentions: Seq<MentionData>,
)
    requires
        mentions.len() > 0,
    ensures
        ({
            let mention = mentions.first();
            let rest = mentions.drop_first();
            let commands = book.commands(begin(occasion, mentions));
            let others = book.commands(begin(occasion, rest));
            &&& book.conclusion(begin(occasion, mentions)) matches Turn::Finished(recipient_ids)
            &&& book.conclusion(begin(occasion, rest)) matches Turn::Finished(other_ids)
            &&& if mention.local && mention.name@ != occasion.user.name@ {
                match (book.by_name)(mention.name) {
                    Some(user) => {
                        let find = NotifCommand::FindUser { name: mention.name };
                        let store = NotifCommand::CreateMention(
                            UserMentionForm {
                                recipient_id: user.id,
                                comment_id: occasion.comment.id,
                                read: None,
                            },
                        );
                        &&& recipient_ids == seq![user.id] + other_ids
                        &&& is_mailed(occasion, user) ==> commands == seq![
                            find,
                            store,
                            NotifCommand::SendEmail(
                                EmailModel {
                                    subject: occasion.hostname@ + " - Mentioned by "@
                                        + occasion.user.name@,
                                    to_address: user.email->0@,
                                    to_name: user.name@,
                                    html: "<h1>User Mention</h1><br><div>"@ + quote(occasion),
                                },
                            ),
                        ] + others
                        &&& !is_mailed(occasion, user) ==> commands == seq![find, store] + others
                    },
                    None => {
                        &&& recipient_ids == other_ids
                        &&& commands == seq![NotifCommand::FindUser { name: mention.name }]
                            + others
                    },
                }
            } else {
                &&& recipient_ids == other_ids
                &&& commands == others
            }
        }),
{
    let mention = mentions.first();
    let rest = mentions.drop_first();
    lemma_targets_first(occasion, mentions);
    book.who_is_notified(occasion, mentions);
    book.who_is_notified(occasion, rest);
    if mention.local && mention.name@ != occasion.user.name@ {
        let names = targets(occasion, mentions);
        assert(names.drop_first() =~= targets(occasion, rest));
        book.lemma_named_first(occasion, names);
        let remaining = targets(occasion, rest);
        let recipient_ids = Seq::<i32>::empty();
        let found = NotifModel { occasion, remaining, recipient_ids, stage: NotifStage::Finding };
        reveal_with_fuel(Directory::commands, 4);
        match (book.by_name)(mention.name) {
            Some(user) => {
                let stored = found.with(user).at(NotifStage::Recording { recipient: user });
                lemma_same_commands(book, stored, found);
                lemma_same_commands(book, stored.at(NotifStage::Mailing), found);
                assert(ids(listed(Some(user))) =~= seq![user.id]);
                assert(ids(seq![user]) + ids(book.named(remaining)) + ids(
                    listed(book.parent_author(occasion)),
                ) =~= seq![user.id] + (ids(book.named(remaining)) + ids(
                    listed(book.parent_author(occasion)),
                )));
                assert("<h1>User Mention</h1><br><div>"@ + occasion.user.name@ + " - "@
                    + occasion.comment.content@ + "</div><br><a href=https://"@
                    + occasion.hostname@ + "/inbox>inbox</a>"@
                    =~= "<h1>User Mention</h1><br><div>"@ + quote(occasion));
            },
            None => {
                assert(ids(listed(None::<User>)) =~= Seq::<i32>::empty());
                assert(ids(listed(None::<User>)) + ids(book.named(remaining)) =~= ids(
                    book.named(remaining),
                ));
            },
        }
    }
}

/// What is done for the author of a parent: nothing if they wrote the comment
/// themselves. Otherwise they are looked up; if they are there, they are the only
/// recipient, and get an e-mail under this headline if they want one.
pub open spec fn author_hears(
    book: Directory,
    occasion: Occasion,
    author_id: i32,
    headline: Seq<char>,
    commands: Seq<NotifCommand<EmailModel>>,
    recipient_ids: Seq<i32>,
) -> bool {
    let read = NotifCommand::ReadUser { user_id: author_id };
    if author_id == occasion.user.id {
        &&& commands == Seq::<NotifCommand<EmailModel>>::empty()
        &&& recipient_ids == Seq::<i32>::empty()
    } else {
        match (book.users)(author_id) {
            Some(author) => {
                &&& recipient_ids == seq![author.id]
                &&& is_mailed(occasion, author) ==> commands == seq![
                    read,
                    NotifCommand::SendEmail(
                        EmailModel {
                            subject: occasion.hostname@ + " - Reply from "@ + occasion.user.name@,
                            to_address: author.email->0@,
                            to_name: author.name@,
                            html: headline + quote(occasion),
                        },
                    ),
                ]
                &&& !is_mailed(occasion, author) ==> commands == seq![read]
            },
            None => {
                &&& commands == seq![read]
                &&& recipient_ids == Seq::<i32>::empty()
            },
        }
    }
}

proof fn lemma_author_hears(book: Directory, state: NotifModel, author_id: i32, notice: Notice)
    requires
        state.recipient_ids == Seq::<i32>::empty(),
        notice != Notice::Mention,
    ensures
        ({
            let turn = state.to_author(author_id, notice);
            let headline = if notice == Notice::CommentReply {
                "<h1>Comment Reply</h1><br><div>"@
            } else {
                "<h1>Post Reply</h1><br><div>"@
            };
            &&& book.conclusion(turn) matches Turn::Finished(recipient_ids)
            &&& author_hears(
                book,
                state.occasion,
                author_id,
                headline,
                book.commands(turn),
                recipient_ids,
            )
        }),
{
    reveal_with_fuel(Directory::commands, 3);
    reveal_with_fuel(Directory::conclusion, 3);
    let occasion = state.occasion;
    let headline = if notice == Notice::CommentReply {
        "<h1>Comment Reply</h1><br><div>"@
    } else {
        "<h1>Post Reply</h1><br><div>"@
    };
    assert(headline + occasion.user.name@ + " - "@ + occasion.comment.content@
        + "</div><br><a href=https://"@ + occasion.hostname@ + "/inbox>inbox</a>"@ =~= headline
        + quote(occasion));
    let commands = book.commands(state.to_author(author_id, notice));
    let read = NotifCommand::<EmailModel>::ReadUser { user_id: author_id };
    if author_id != occasion.user.id {
        match (book.users)(author_id) {
            Some(author) => {
                assert(state.recipient_ids.push(author.id) =~= seq![author.id]);
                match occasion.notice(author, notice) {
                    Some(email) => {
                        assert(is_mailed(occasion, author));
                        assert(commands =~= seq![read, NotifCommand::SendEmail(email)]);
                    },
                    None => {
                        assert(!is_mailed(occasion, author));
                        assert(commands =~= seq![read]);
                    },
                }
            },
            None => {
                assert(commands =~= seq![read]);
            },
        }
    }
}

/// What is done without any mention: the author of the parent comment hears of the
/// reply if there is a parent comment, and the author of the post if there is none.
pub proof fn a_reply_reaches_its_parent(book: Directory, occasion: Occasion)
    ensures
        ({
            let first = begin(occasion, Seq::<MentionData>::empty());
            let commands = book.commands(first);
            &&& book.conclusion(first) matches Turn::Finished(recipient_ids)
            &&& match occasion.comment.parent_id {
                Some(parent_id) => {
                    let read = NotifCommand::<EmailModel>::ReadComment { comment_id: parent_id };
                    &&& commands.len() > 0
                    &&& commands.first() == read
                    &&& match (book.comments)(parent_id) {
                        Some(parent) => author_hears(
                            book,
                            occasion,
                            parent.creator_id,
                            "<h1>Comment Reply</h1><br><div>"@,
                            commands.drop_first(),
                            recipient_ids,
                        ),
                        None => {
                            &&& commands == seq![read]
                            &&& recipient_ids == Seq::<i32>::empty()
                        },
                    }
                },
                None => author_hears(
                    book,
                    occasion,
                    occasion.post.creator_id,
                    "<h1>Post Reply</h1><br><div>"@,
                    commands,
                    recipient_ids,
                ),
            }
        }),
{
    let none = Seq::<MentionData>::empty();
    let first = begin(occasion, none);
    reveal(Seq::filter);
    assert(targets(occasion, none) =~= Seq::<String>::empty());
    reveal_with_fuel(Directory::commands, 2);
    reveal_with_fuel(Directory::conclusion, 2);
    let state = NotifModel {
        occasion,
        remaining: Seq::empty(),
        recipient_ids: Seq::empty(),
        stage: NotifStage::Finding,
    };
    assert(first == state.onward());
    match occasion.comment.parent_id {
        Some(parent_id) => {
            let at = state.at(NotifStage::ReadingParent);
            let read = NotifCommand::<EmailModel>::ReadComment { comment_id: parent_id };
            let commands = book.commands(first);
            match (book.comments)(parent_id) {
                Some(parent) => {
                    let turn = at.to_author(parent.creator_id, Notice::CommentReply);
                    lemma_author_hears(book, at, parent.creator_id, Notice::CommentReply);
                    assert(commands == seq![read] + book.commands(turn));
                    assert(commands.drop_first() =~= book.commands(turn));
                },
                None => {
                    assert(commands =~= seq![read]);
                },
            }
        },
        None => lemma_author_hears(book, state, occasion.post.creator_id, Notice::PostReply),
    }
}

/// Every user of this site who is mentioned, other than the commenter, is looked up,
/// whatever the comment replies to. If they are there, they are notified, a mention
/// is stored for them, and they get an e-mail if they want one.
pub proof fn mentioned_users_hear_of_it(
    book: Directory,
    occasion: Occasion,
    mentions: Seq<MentionData>,
    i: int,
)
    requires
        0 <= i < mentions.len(),
    ensures
        ({
            let mention = mentions[i];
            let commands = book.commands(begin(occasion, mentions));
            mention.local && mention.name@ != occasion.user.name@ ==> {
                &&& commands.contains(NotifCommand::FindUser { name: mention.name })
                &&& (book.by_name)(mention.name) matches Some(user) ==> {
                    &&& book.conclusion(begin(occasion, mentions)) matches Turn::Finished(
                        recipient_ids,
                    )
                    &&& recipient_ids.contains(user.id)
                    &&& commands.contains(
                        NotifCommand::CreateMention(
                            UserMentionForm {
                                recipient_id: user.id,
                                comment_id: occasion.comment.id,
                                read: None,
                            },
                        ),
                    )
                    &&& is_mailed(occasion, user) ==> commands.contains(
                        NotifCommand::SendEmail(
                            EmailModel {
                                subject: occasion.hostname@ + " - Mentioned by "@
                                    + occasion.user.name@,
                                to_address: user.email->0@,
                                to_name: user.name@,
                                html: "<h1>User Mention</h1><br><div>"@ + quote(occasion),
                            },
                        ),
                    )
                }
            }
        }),
    decreases mentions.len(),
{
    let mention = mentions[i];
    let rest = mentions.drop_first();
    let commands = book.commands(begin(occasion, mentions));
    let others = book.commands(begin(occasion, rest));
    a_mention_adds_its_user(book, occasion, mentions);
    if i > 0 {
        mentioned_users_hear_of_it(book, occasion, rest, i - 1);
        assert(rest[i - 1] == mention);
        let added = commands.len() - others.len();
        assert(forall|c: NotifCommand<EmailModel>| #[trigger]
            others.contains(c) ==> commands.contains(c)) by {
            assert forall|c: NotifCommand<EmailModel>| #[trigger] others.contains(c) implies
                commands.contains(c) by {
                let k = choose|k: int| 0 <= k < others.len() && others[k] == c;
                assert(commands[added + k] == c);
            }
        }
        if let Turn::Finished(recipient_ids) = book.conclusion(begin(occasion, mentions)) {
            if let Turn::Finished(other_ids) = book.conclusion(begin(occasion, rest)) {
                let more = recipient_ids.len() - other_ids.len();
                assert forall|id: i32| #[trigger] other_ids.contains(id) implies
                    recipient_ids.contains(id) by {
                    let k = choose|k: int| 0 <= k < other_ids.len() && other_ids[k] == id;
                    assert(recipient_ids[more + k] == id);
                }
            }
        }
    } else if mention.local && mention.name@ != occasion.user.name@ {
        assert(commands[0] == NotifCommand::<EmailModel>::FindUser { name: mention.name });
        if let Some(user) = (book.by_name)(mention.name) {
            if let Turn::Finished(recipient_ids) = book.conclusion(begin(occasion, mentions)) {
                assert(recipient_ids[0] == user.id);
            }
            assert(commands[1] is CreateMention);
            if is_mailed(occasion, user) {
                assert(commands[2] is SendEmail);
            }
        }
    }
}

/// Whether `reply` has found a user who wants e-mails, and `email` goes to their own
/// address and bears their name.
pub open spec fn is_wanted(reply: NotifReply, email: EmailModel) -> bool {
    &&& reply matches NotifReply::User(Some(user))
    &&& user.send_notifications_to_email
    &&& user.email matches Some(address)
    &&& email.to_address == address@
    &&& email.to_name == user.name@
}

/// Whatever comes in, an e-mail is sent only where e-mails are sent at all, and only
/// to a user who was found, has turned e-mails on, and has the address it goes to:
/// for a mention as for a reply to a comment or to a post.
pub proof fn emails_go_to_those_who_want_them(
    occasion: Occasion,
    mentions: Seq<MentionData>,
    replies: Seq<NotifReply>,
)
    ensures
        after(begin(occasion, mentions), replies) matches Turn::Await(
            _,
            NotifCommand::SendEmail(email),
        ) ==> {
            &&& occasion.do_send_email
            &&& exists|i: int| 0 <= i < replies.len() && is_wanted(#[trigger] replies[i], email)
        },
{
    emails_are_wanted(occasion, mentions, replies);
    if let Turn::Await(_, NotifCommand::SendEmail(email)) = after(
        begin(occasion, mentions),
        replies,
    ) {
        let (i, notice) = choose|i: int, notice: Notice|
            0 <= i < replies.len() && #[trigger] occasion.invites(replies[i], notice, email);
        assert(is_wanted(replies[i], email));
    }
}

proof fn lemma_is_target(occasion: Occasion, mentions: Seq<MentionData>, i: int)
    requires
        0 <= i < mentions.len(),
        mentions[i].local,
        mentions[i].name@ != occasion.user.name@,
    ensures
        targets(occasion, mentions).contains(mentions[i].name),
    decreases mentions.len(),
{
    lemma_targets_first(occasion, mentions);
    let names = targets(occasion, mentions);
    let rest = targets(occasion, mentions.drop_first());
    if i > 0 {
        lemma_is_target(occasion, mentions.drop_first(), i - 1);
        let k = choose|k: int| 0 <= k < rest.len() && rest[k] == mentions[i].name;
        assert(names[names.len() - rest.len() + k] == mentions[i].name);
    } else {
        assert(names[0] == mentions[i].name);
    }
}

proof fn lemma_looked_up(
    occasion: Occasion,
    mentions: Seq<MentionData>,
    replies: Seq<NotifReply>,
    name: String,
)
    requires
        targets(occasion, mentions).contains(name),
    ensures
        ({
            let first = begin(occasion, mentions);
            let found = issued(first, replies).contains(NotifCommand::FindUser { name });
            match after(first, replies) {
                Turn::Await(state, _) => {
                    &&& found || state.remaining.contains(name)
                    &&& match state.stage {
                        NotifStage::Finding | NotifStage::Recording { .. } | NotifStage::Mailing =>
                            true,
                        _ => state.remaining.len() == 0,
                    }
                },
                Turn::Finished(_) => found,
                Turn::Unexpected => true,
            }
        }),
    decreases replies.len(),
{
    let first = begin(occasion, mentions);
    let find = NotifCommand::<EmailModel>::FindUser { name };
    let commands = issued(first, replies);
    let names = targets(occasion, mentions);
    if replies.len() > 0 {
        let before = replies.drop_last();
        lemma_looked_up(occasion, mentions, before, name);
        let earlier = issued(first, before);
        if earlier.contains(find) {
            let k = choose|k: int| 0 <= k < earlier.len() && earlier[k] == find;
            assert(commands[k] == find);
        } else if let Turn::Await(state, _) = after(first, before) {
            let k = choose|k: int| 0 <= k < state.remaining.len() && state.remaining[k] == name;
            if let Turn::Await(next, _) = after(first, replies) {
                if next.remaining.len() < state.remaining.len() {
                    if k == 0 {
                        assert(commands.last() == find);
                    } else {
                        assert(next.remaining[k - 1] == name);
                    }
                } else {
                    assert(next.remaining[k] == name);
                }
            }
        }
    } else {
        let k = choose|k: int| 0 <= k < names.len() && names[k] == name;
        if k == 0 {
            assert(commands.last() == find);
        } else if let Turn::Await(state, _) = first {
            assert(state.remaining[k - 1] == name);
        }
    }
}

/// Whatever comes in, notifications that finish have looked up every user of this
/// site who is mentioned, other than the commenter, whatever the comment replies to.
pub proof fn every_mention_is_looked_up(
    occasion: Occasion,
    mentions: Seq<MentionData>,
    replies: Seq<NotifReply>,
    i: int,
)
    requires
        0 <= i < mentions.len(),
        mentions[i].local,
        mentions[i].name@ != occasion.user.name@,
    ensures
        after(begin(occasion, mentions), replies) is Finished ==> issued(
            begin(occasion, mentions),
            replies,
        ).contains(NotifCommand::FindUser { name: mentions[i].name }),
{
    lemma_is_target(occasion, mentions, i);
    lemma_looked_up(occasion, mentions, replies, mentions[i].name);
}

/// Whatever comes in, a user who is found by name is a recipient from then on, and a
/// mention of them in this comment is stored next.
pub proof fn found_users_are_notified(
    occasion: Occasion,
    mentions: Seq<MentionData>,
    replies: Seq<NotifReply>,
    later: Seq<NotifReply>,
    user: User,
)
    requires
        after(begin(occasion, mentions), replies) matches Turn::Await(
            _,
            NotifCommand::FindUser { .. },
        ),
    ensures
        ({
            let first = begin(occasion, mentions);
            let found = replies.push(NotifReply::User(Some(user)));
            &&& after(first, found) matches Turn::Await(_, NotifCommand::CreateMention(form))
            &&& form.recipient_id == user.id
            &&& form.comment_id == occasion.comment.id
            &&& form.read is None
            &&& match after(first, found + later) {
                Turn::Await(state, _) => state.recipient_ids.contains(user.id),
                Turn::Finished(recipient_ids) => recipient_ids.contains(user.id),
                Turn::Unexpected => true,
            }
        }),
    decreases later.len(),
{
    let first = begin(occasion, mentions);
    let found = replies.push(NotifReply::User(Some(user)));
    assert(found.drop_last() =~= replies);
    lemma_occasion(occasion, mentions, replies);
    if later.len() > 0 {
        found_users_are_notified(occasion, mentions, replies, later.drop_last(), user);
        assert((found + later).drop_last() =~= found + later.drop_last());
        if let Turn::Await(state, _) = after(first, found + later.drop_last()) {
            let ids = state.recipient_ids;
            let k = choose|k: int| 0 <= k < ids.len() && ids[k] == user.id;
            match after(first, found + later) {
                Turn::Await(next, _) => {
                    assert(next.recipient_ids[k] == user.id);
                },
                Turn::Finished(all) => {
                    assert(all[k] == user.id);
                },
                Turn::Unexpected => {},
            }
        }
    } else {
        assert(found + later =~= found);
        if let Turn::Await(state, _) = after(first, found) {
            assert(state.recipient_ids.last() == user.id);
        }
    }
}

proof fn lemma_occasion(
    occasion: Occasion,
    mentions: Seq<MentionData>,
    replies: Seq<NotifReply>,
)
    ensures
        after(begin(occasion, mentions), replies) matches Turn::Await(state, command) ==> {
            &&& state.occasion == occasion
            &&& command is FindUser ==> state.stage is Finding
        },
    decreases replies.len(),
{
    if replies.len() > 0 {
        lemma_occasion(occasion, mentions, replies.drop_last());
    }
}

} // verus!

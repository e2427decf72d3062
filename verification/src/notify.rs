//! Notifying those whom a comment concerns.
//!
//! The users of this site who are mentioned in a comment hear of it, and so does
//! the author of the comment or post that it replies to. Each of them is put on
//! the list of recipients; who wants it gets an e-mail too. Nothing that goes
//! wrong on the way stops the rest.

use crate::protocol::Turn;
use crate::rows::{Comment, MentionData, Post, User, UserMentionForm};
use vstd::prelude::*;
use vstd::string::*;

verus! {

/// Why somebody is notified.
#[derive(Clone, Copy, Debug, PartialEq, Eq)]
pub enum Notice {
    Mention,
    CommentReply,
    PostReply,
}

/// An e-mail to a user.
#[derive(Debug, PartialEq, Eq)]
pub struct Email {
    pub subject: String,
    pub to_address: String,
    pub to_name: String,
    pub html: String,
}

/// The view of an [`Email`].
#[verifier::ext_equal]
pub struct EmailModel {
    pub subject: Seq<char>,
    pub to_address: Seq<char>,
    pub to_name: Seq<char>,
    pub html: Seq<char>,
}

impl View for Email {
    type V = EmailModel;

    open spec fn view(&self) -> EmailModel {
        EmailModel {
            subject: self.subject@,
            to_address: self.to_address@,
            to_name: self.to_name@,
            html: self.html@,
        }
    }
}

impl Notice {
    /// The words between the name of the site and the name of the commenter.
    pub open spec fn spec_subject(self) -> &'static str {
        match self {
            Notice::Mention => " - Mentioned by ",
            Notice::CommentReply => " - Reply from ",
            Notice::PostReply => " - Reply from ",
        }
    }

    fn subject(self) -> (res: &'static str)
        ensures
            res == self.spec_subject(),
    {
        match self {
            Notice::Mention => " - Mentioned by ",
            Notice::CommentReply => " - Reply from ",
            Notice::PostReply => " - Reply from ",
        }
    }

    /// The headline of the e-mail.
    pub open spec fn spec_headline(self) -> &'static str {
        match self {
            Notice::Mention => "<h1>User Mention</h1><br><div>",
            Notice::CommentReply => "<h1>Comment Reply</h1><br><div>",
            Notice::PostReply => "<h1>Post Reply</h1><br><div>",
        }
    }

    fn headline(self) -> (res: &'static str)
        ensures
            res == self.spec_headline(),
    {
        match self {
            Notice::Mention => "<h1>User Mention</h1><br><div>",
            Notice::CommentReply => "<h1>Comment Reply</h1><br><div>",
            Notice::PostReply => "<h1>Post Reply</h1><br><div>",
        }
    }
}

/// What the notifications are about: a comment by `user` under `post`, on the
/// site `hostname`.
#[derive(Debug, PartialEq, Eq)]
pub struct Occasion {
    pub hostname: String,
    pub comment: Comment,
    pub user: User,
    pub post: Post,
    pub do_send_email: bool,
}

impl Occasion {
    /// The e-mail that tells `recipient` at `address` of the comment.
    pub open spec fn email(self, recipient: User, address: String, notice: Notice) -> EmailModel {
        EmailModel {
            subject: self.hostname@ + notice.spec_subject()@ + self.user.name@,
            to_address: address@,
            to_name: recipient.name@,
            html: notice.spec_headline()@ + self.user.name@ + " - "@ + self.comment.content@
                + "</div><br><a href=https://"@ + self.hostname@ + "/inbox>inbox</a>"@,
        }
    }

    /// The e-mail that `recipient` gets: one that is wanted here, by a user who
    /// wants e-mails and has an address.
    pub open spec fn notice(self, recipient: User, notice: Notice) -> Option<EmailModel> {
        match recipient.email {
            Some(address) => if self.do_send_email && recipient.send_notifications_to_email {
                Some(self.email(recipient, address, notice))
            } else {
                None
            },
            None => None,
        }
    }

    /// Whether `reply` has found a user who gets this `email`.
    pub open spec fn invites(self, reply: NotifReply, notice: Notice, email: EmailModel) -> bool {
        reply matches NotifReply::User(Some(recipient)) && self.notice(recipient, notice) == Some(
            email,
        )
    }

    /// The note that the comment mentions `recipient`.
    pub open spec fn mention(self, recipient: User) -> UserMentionForm {
        UserMentionForm { recipient_id: recipient.id, comment_id: self.comment.id, read: None }
    }

    /// Whether a mention leads to a notification: it names a user of this site,
    /// and not the commenter.
    pub open spec fn concerns(self, mention: MentionData) -> bool {
        mention.local && mention.name@ != self.user.name@
    }

    fn write_email(&self, recipient: User, notice: Notice) -> (res: Option<Email>)
        ensures
            match res {
                Some(email) => self.notice(recipient, notice) == Some(email@),
                None => self.notice(recipient, notice) is None,
            },
    {
        if !(self.do_send_email && recipient.send_notifications_to_email) {
            return None;
        }
        let User { name, email, .. } = recipient;
        match email {
            Some(address) => {
                let subject = self.hostname.clone().concat(notice.subject()).concat(
                    self.user.name.as_str(),
                );
                let html = notice.headline().to_owned().concat(self.user.name.as_str()).concat(
                    " - ",
                ).concat(self.comment.content.as_str()).concat(
                    "</div><br><a href=https://",
                ).concat(self.hostname.as_str()).concat("/inbox>inbox</a>");
                Some(Email { subject, to_address: address, to_name: name, html })
            },
            None => None,
        }
    }
}

/// A command of the notifications. `M` is an e-mail, or in contracts its view.
#[derive(Debug, PartialEq, Eq)]
pub enum NotifCommand<M> {
    /// Find the user of this name.
    FindUser { name: String },
    /// Store that a comment mentions a user. It may be stored already.
    CreateMention(UserMentionForm),
    SendEmail(M),
    ReadComment { comment_id: i32 },
    ReadUser { user_id: i32 },
}

/// The reply to a [`NotifCommand`].
#[derive(Debug, PartialEq, Eq)]
pub enum NotifReply {
    /// To `FindUser` and `ReadUser`: the user, if one was found.
    User(Option<User>),
    /// To `ReadComment`: the comment, if it was found.
    Comment(Option<Comment>),
    /// To `CreateMention` and `SendEmail`, whether they went well or not.
    Done,
}

/// Whether `reply` is a reply to `command`.
pub open spec fn answers(command: NotifCommand<EmailModel>, reply: NotifReply) -> bool {
    match command {
        NotifCommand::FindUser { .. } => reply is User,
        NotifCommand::CreateMention(_) => reply is Done,
        NotifCommand::SendEmail(_) => reply is Done,
        NotifCommand::ReadComment { .. } => reply is Comment,
        NotifCommand::ReadUser { .. } => reply is User,
    }
}

/// Whether each of the `replies` is a reply to the command that was pending when
/// it came in. What comes in after the end is a reply to nothing, and does not
/// count.
pub open spec fn all_answer(
    commands: Seq<NotifCommand<EmailModel>>,
    replies: Seq<NotifReply>,
) -> bool {
    forall|i: int|
        0 <= i < commands.len() && i < replies.len() ==> answers(
            #[trigger] commands[i],
            replies[i],
        )
}

/// What the notifications wait for.
#[derive(Debug, PartialEq, Eq)]
pub enum NotifStage {
    Finding,
    Recording { recipient: User },
    Mailing,
    ReadingParent,
    ReadingAuthor { notice: Notice },
    MailingAuthor,
}

/// Notifications that wait for a reply.
#[derive(Debug, PartialEq, Eq)]
pub struct NotifState {
    pub occasion: Occasion,
    /// The names that have yet to be looked up, the next one last.
    pub remaining: Vec<String>,
    pub recipient_ids: Vec<i32>,
    pub stage: NotifStage,
}

/// The view of a [`NotifState`], with the next name first.
#[verifier::ext_equal]
pub struct NotifModel {
    pub occasion: Occasion,
    pub remaining: Seq<String>,
    pub recipient_ids: Seq<i32>,
    pub stage: NotifStage,
}

impl View for NotifState {
    type V = NotifModel;

    open spec fn view(&self) -> NotifModel {
        NotifModel {
            occasion: self.occasion,
            remaining: self.remaining@.reverse(),
            recipient_ids: self.recipient_ids@,
            stage: self.stage,
        }
    }
}

/// A turn of the notifications, which end with the users who were notified.
pub type NotifTurn = Turn<NotifState, NotifCommand<Email>, Vec<i32>>;

/// The model of a [`NotifTurn`].
pub type NotifTurnModel = Turn<NotifModel, NotifCommand<EmailModel>, Seq<i32>>;

/// The turn, with state, command and result taken by their views.
pub open spec fn notif_model(turn: NotifTurn) -> NotifTurnModel {
    match turn {
        Turn::Await(state, command) => Turn::Await(
            state@,
            match command {
                NotifCommand::FindUser { name } => NotifCommand::FindUser { name },
                NotifCommand::CreateMention(form) => NotifCommand::CreateMention(form),
                NotifCommand::SendEmail(email) => NotifCommand::SendEmail(email@),
                NotifCommand::ReadComment { comment_id } => NotifCommand::ReadComment {
                    comment_id,
                },
                NotifCommand::ReadUser { user_id } => NotifCommand::ReadUser { user_id },
            },
        ),
        Turn::Finished(recipient_ids) => Turn::Finished(recipient_ids@),
        Turn::Unexpected => Turn::Unexpected,
    }
}

impl NotifModel {
    /// The same notifications, at another stage.
    pub open spec fn at(self, stage: NotifStage) -> NotifModel {
        NotifModel { stage, ..self }
    }

    /// The same notifications, with one more recipient.
    pub open spec fn with(self, recipient: User) -> NotifModel {
        NotifModel { recipient_ids: self.recipient_ids.push(recipient.id), ..self }
    }

    /// The turn in which the next name is looked up or, after the last one, the
    /// parent of the comment.
    pub open spec fn onward(self) -> NotifTurnModel {
        if self.remaining.len() > 0 {
            Turn::Await(
                NotifModel {
                    remaining: self.remaining.drop_first(),
                    stage: NotifStage::Finding,
                    ..self
                },
                NotifCommand::FindUser { name: self.remaining.first() },
            )
        } else {
            match self.occasion.comment.parent_id {
                Some(comment_id) => Turn::Await(
                    self.at(NotifStage::ReadingParent),
                    NotifCommand::ReadComment { comment_id },
                ),
                None => self.to_author(self.occasion.post.creator_id, Notice::PostReply),
            }
        }
    }

    /// The turn in which the author of the parent is looked up, unless it is the
    /// commenter.
    pub open spec fn to_author(self, author_id: i32, notice: Notice) -> NotifTurnModel {
        if author_id != self.occasion.user.id {
            Turn::Await(
                self.at(NotifStage::ReadingAuthor { notice }),
                NotifCommand::ReadUser { user_id: author_id },
            )
        } else {
            Turn::Finished(self.recipient_ids)
        }
    }

    /// The turn that follows when `reply` comes in.
    pub open spec fn next(self, reply: NotifReply) -> NotifTurnModel {
        match (self.stage, reply) {
            (NotifStage::Finding, NotifReply::User(Some(recipient))) => Turn::Await(
                self.with(recipient).at(NotifStage::Recording { recipient }),
                NotifCommand::CreateMention(self.occasion.mention(recipient)),
            ),
            (NotifStage::Finding, NotifReply::User(None)) => self.onward(),
            (NotifStage::Recording { recipient }, NotifReply::Done) => {
                match self.occasion.notice(recipient, Notice::Mention) {
                    Some(email) => Turn::Await(
                        self.at(NotifStage::Mailing),
                        NotifCommand::SendEmail(email),
                    ),
                    None => self.onward(),
                }
            },
            (NotifStage::Mailing, NotifReply::Done) => self.onward(),
            (NotifStage::ReadingParent, NotifReply::Comment(Some(parent))) => self.to_author(
                parent.creator_id,
                Notice::CommentReply,
            ),
            (NotifStage::ReadingParent, NotifReply::Comment(None)) => Turn::Finished(
                self.recipient_ids,
            ),
            (NotifStage::ReadingAuthor { notice }, NotifReply::User(Some(recipient))) => {
                match self.occasion.notice(recipient, notice) {
                    Some(email) => Turn::Await(
                        self.with(recipient).at(NotifStage::MailingAuthor),
                        NotifCommand::SendEmail(email),
                    ),
                    None => Turn::Finished(self.with(recipient).recipient_ids),
                }
            },
            (NotifStage::ReadingAuthor { .. }, NotifReply::User(None)) => Turn::Finished(
                self.recipient_ids,
            ),
            (NotifStage::MailingAuthor, NotifReply::Done) => Turn::Finished(self.recipient_ids),
            _ => Turn::Unexpected,
        }
    }
}

/// The names to look up: of those mentions that lead to a notification, in their
/// order.
pub open spec fn targets(occasion: Occasion, mentions: Seq<MentionData>) -> Seq<String> {
    mentions.filter(|mention: MentionData| occasion.concerns(mention)).map_values(
        |mention: MentionData| mention.name,
    )
}

pub(crate) proof fn lemma_targets_first(occasion: Occasion, mentions: Seq<MentionData>)
    requires
        mentions.len() > 0,
    ensures
        targets(occasion, mentions) == (if occasion.concerns(mentions.first()) {
            seq![mentions.first().name] + targets(occasion, mentions.drop_first())
        } else {
            targets(occasion, mentions.drop_first())
        }),
{
    let concerns = |mention: MentionData| occasion.concerns(mention);
    let first = seq![mentions.first()];
    let rest = mentions.drop_first();
    assert(mentions =~= first + rest);
    Seq::filter_distributes_over_add(first, rest, concerns);
    assert(first.drop_last() =~= Seq::<MentionData>::empty());
    reveal_with_fuel(Seq::filter, 2);
    if concerns(mentions.first()) {
        assert(first.filter(concerns) =~= first);
        assert(targets(occasion, mentions) =~= seq![mentions.first().name] + targets(
            occasion,
            rest,
        ));
    } else {
        assert(first.filter(concerns) =~= Seq::<MentionData>::empty());
        assert(targets(occasion, mentions) =~= targets(occasion, rest));
    }
}

/// The first turn of the notifications.
pub open spec fn begin(occasion: Occasion, mentions: Seq<MentionData>) -> NotifTurnModel {
    NotifModel {
        occasion,
        remaining: targets(occasion, mentions),
        recipient_ids: Seq::empty(),
        stage: NotifStage::Finding,
    }.onward()
}

/// Begins to notify those whom `comment` concerns: the users that it mentions,
/// and the author of its parent.
pub fn send_local_notifs(
    mentions: Vec<MentionData>,
    comment: Comment,
    user: &User,
    post: Post,
    do_send_email: bool,
    hostname: &String,
) -> (turn: NotifTurn)
    ensures
        notif_model(turn) == begin(
            Occasion { hostname: *hostname, comment, user: *user, post, do_send_email },
            mentions@,
        ),
        notif_model(turn) matches Turn::Await(state, _) ==> {
            &&& state.occasion.hostname == *hostname
            &&& state.occasion.comment == comment
            &&& state.occasion.user == *user
            &&& state.occasion.post == post
            &&& state.occasion.do_send_email == do_send_email
        },
{
    let occasion = Occasion {
        hostname: hostname.clone(),
        comment,
        user: user.clone(),
        post,
        do_send_email,
    };
    let mut waiting = mentions;
    let mut remaining: Vec<String> = Vec::new();
    let ghost mut done: int = mentions@.len() as int;
    proof {
        reveal(Seq::filter);
        assert(remaining@.reverse() =~= targets(occasion, mentions@.skip(done)));
    }
    while waiting.len() > 0
        invariant
            0 <= done <= mentions@.len(),
            waiting@ == mentions@.take(done),
            remaining@.reverse() == targets(occasion, mentions@.skip(done)),
        decreases waiting.len(),
    {
        if let Some(mention) = waiting.pop() {
            proof {
                done = done - 1;
                lemma_targets_first(occasion, mentions@.skip(done));
                assert(mentions@.skip(done).drop_first() =~= mentions@.skip(done + 1));
                assert(waiting@ =~= mentions@.take(done));
            }
            if mention.local && mention.name != occasion.user.name {
                let ghost before = remaining@;
                remaining.push(mention.name);
                assert(remaining@.reverse() =~= seq![mention.name] + before.reverse());
            }
        }
    }
    assert(mentions@.skip(0) =~= mentions@);
    NotifState {
        occasion,
        remaining,
        recipient_ids: Vec::new(),
        stage: NotifStage::Finding,
    }.advance()
}

impl NotifState {
    fn advance(self) -> (turn: NotifTurn)
        ensures
            notif_model(turn) == self@.onward(),
    {
        let NotifState { occasion, remaining, recipient_ids, stage } = self;
        let mut remaining = remaining;
        match remaining.pop() {
            Some(name) => {
                assert(remaining@.reverse() =~= self@.remaining.drop_first());
                Turn::Await(
                    NotifState { occasion, remaining, recipient_ids, stage: NotifStage::Finding },
                    NotifCommand::FindUser { name },
                )
            },
            None => match occasion.comment.parent_id {
                Some(comment_id) => Turn::Await(
                    NotifState {
                        occasion,
                        remaining,
                        recipient_ids,
                        stage: NotifStage::ReadingParent,
                    },
                    NotifCommand::ReadComment { comment_id },
                ),
                None => {
                    let author_id: i32 = occasion.post.creator_id;
                    NotifState { occasion, remaining, recipient_ids, stage }.find_author(
                        author_id,
                        Notice::PostReply,
                    )
                },
            },
        }
    }

    fn find_author(self, author_id: i32, notice: Notice) -> (turn: NotifTurn)
        ensures
            notif_model(turn) == self@.to_author(author_id, notice),
    {
        if author_id != self.occasion.user.id {
            Turn::Await(
                NotifState { stage: NotifStage::ReadingAuthor { notice }, ..self },
                NotifCommand::ReadUser { user_id: author_id },
            )
        } else {
            Turn::Finished(self.recipient_ids)
        }
    }

    /// Takes the reply to the pending command.
    pub fn resume(self, reply: NotifReply) -> (turn: NotifTurn)
        ensures
            notif_model(turn) == self@.next(reply),
    {
        let NotifState { occasion, remaining, recipient_ids, stage } = self;
        let mut recipient_ids = recipient_ids;
        match (stage, reply) {
            (NotifStage::Finding, NotifReply::User(Some(recipient))) => {
                recipient_ids.push(recipient.id);
                let form = UserMentionForm {
                    recipient_id: recipient.id,
                    comment_id: occasion.comment.id,
                    read: None,
                };
                Turn::Await(
                    NotifState {
                        occasion,
                        remaining,
                        recipient_ids,
                        stage: NotifStage::Recording { recipient },
                    },
                    NotifCommand::CreateMention(form),
                )
            },
            (NotifStage::Finding, NotifReply::User(None)) => NotifState {
                occasion,
                remaining,
                recipient_ids,
                stage: NotifStage::Finding,
            }.advance(),
            (NotifStage::Recording { recipient }, NotifReply::Done) => {
                match occasion.write_email(recipient, Notice::Mention) {
                    Some(email) => Turn::Await(
                        NotifState {
                            occasion,
                            remaining,
                            recipient_ids,
                            stage: NotifStage::Mailing,
                        },
                        NotifCommand::SendEmail(email),
                    ),
                    None => NotifState {
                        occasion,
                        remaining,
                        recipient_ids,
                        stage: NotifStage::Finding,
                    }.advance(),
                }
            },
            (NotifStage::Mailing, NotifReply::Done) => NotifState {
                occasion,
                remaining,
                recipient_ids,
                stage: NotifStage::Finding,
            }.advance(),
            (NotifStage::ReadingParent, NotifReply::Comment(Some(parent))) => NotifState {
                occasion,
                remaining,
                recipient_ids,
                stage: NotifStage::ReadingParent,
            }.find_author(parent.creator_id, Notice::CommentReply),
            (NotifStage::ReadingParent, NotifReply::Comment(None)) => Turn::Finished(
                recipient_ids,
            ),
            (NotifStage::ReadingAuthor { notice }, NotifReply::User(Some(recipient))) => {
                recipient_ids.push(recipient.id);
                match occasion.write_email(recipient, notice) {
                    Some(email) => Turn::Await(
                        NotifState {
                            occasion,
                            remaining,
                            recipient_ids,
                            stage: NotifStage::MailingAuthor,
                        },
                        NotifCommand::SendEmail(email),
                    ),
                    None => Turn::Finished(recipient_ids),
                }
            },
            (NotifStage::ReadingAuthor { .. }, NotifReply::User(None)) => Turn::Finished(
                recipient_ids,
            ),
            (NotifStage::MailingAuthor, NotifReply::Done) => Turn::Finished(recipient_ids),
            _ => Turn::Unexpected,
        }
    }
}

/// Where notifications stand that began with the turn `first` and were then
/// handed `replies`, one by one. What comes in after the end changes nothing.
pub open spec fn after(first: NotifTurnModel, replies: Seq<NotifReply>) -> NotifTurnModel
    decreases replies.len(),
{
    if replies.len() == 0 {
        first
    } else {
        match after(first, replies.drop_last()) {
            Turn::Await(state, _) => state.next(replies.last()),
            turn => turn,
        }
    }
}

/// The commands of notifications that began with the turn `first` and were then
/// handed `replies`, in the order in which they were given.
pub open spec fn issued(first: NotifTurnModel, replies: Seq<NotifReply>) -> Seq<
    NotifCommand<EmailModel>,
>
    decreases replies.len(),
{
    let before = if replies.len() == 0 {
        Seq::empty()
    } else {
        issued(first, replies.drop_last())
    };
    match after(first, replies) {
        Turn::Await(_, command) => before.push(command),
        _ => before,
    }
}

/// The users who were found, in the order in which they were found.
pub open spec fn found(replies: Seq<NotifReply>) -> Seq<i32> {
    replies.filter_map(
        |reply: NotifReply|
            match reply {
                NotifReply::User(Some(user)) => Some(user.id),
                _ => None,
            },
    )
}

/// Whether the commenter is not among the `names`.
spec fn spares(names: Seq<String>, user: User) -> bool {
    forall|i: int| 0 <= i < names.len() ==> (#[trigger] names[i])@ != user.name@
}

proof fn lemma_targets_spare(occasion: Occasion, mentions: Seq<MentionData>)
    ensures
        spares(targets(occasion, mentions), occasion.user),
        targets(occasion, mentions).len() <= mentions.len(),
    decreases mentions.len(),
{
    if mentions.len() > 0 {
        lemma_targets_first(occasion, mentions);
        lemma_targets_spare(occasion, mentions.drop_first());
    } else {
        reveal(Seq::filter);
    }
}

impl NotifModel {
    /// How many replies can be taken from here on.
    pub open spec fn measure(self) -> nat {
        match self.stage {
            NotifStage::Finding => 3 * self.remaining.len() + 6,
            NotifStage::Recording { .. } => 3 * self.remaining.len() + 5,
            NotifStage::Mailing => 3 * self.remaining.len() + 4,
            NotifStage::ReadingParent => 3,
            NotifStage::ReadingAuthor { .. } => 2,
            NotifStage::MailingAuthor => 1,
        }
    }
}

proof fn lemma_after(occasion: Occasion, mentions: Seq<MentionData>, replies: Seq<NotifReply>)
    ensures
        match after(begin(occasion, mentions), replies) {
            Turn::Await(state, command) => {
                &&& state.occasion == occasion
                &&& state.recipient_ids == found(replies)
                &&& spares(state.remaining, occasion.user)
                &&& state.measure() + replies.len() <= 3 * targets(occasion, mentions).len() + 3
                &&& state.stage matches NotifStage::Recording { recipient } ==> {
                    &&& replies.len() > 0
                    &&& replies.last() == NotifReply::User(Some(recipient))
                }
            },
            Turn::Finished(recipient_ids) => {
                replies.len() == 0 || after(begin(occasion, mentions), replies.drop_last()) is Await
                    ==> recipient_ids == found(replies)
            },
            Turn::Unexpected => true,
        },
    decreases replies.len(),
{
    lemma_targets_spare(occasion, mentions);
    if replies.len() > 0 {
        lemma_after(occasion, mentions, replies.drop_last());
    }
}

/// The recipients are the users who were found, in the order in which they were
/// found: at every stage, and in the end.
pub proof fn recipients_are_those_found(
    occasion: Occasion,
    mentions: Seq<MentionData>,
    replies: Seq<NotifReply>,
)
    ensures
        match after(begin(occasion, mentions), replies) {
            Turn::Await(state, _) => state.recipient_ids == found(replies),
            Turn::Finished(recipient_ids) => {
                replies.len() == 0 || after(begin(occasion, mentions), replies.drop_last()) is Await
                    ==> recipient_ids == found(replies)
            },
            Turn::Unexpected => true,
        },
{
    lemma_after(occasion, mentions, replies);
}

/// The notifications end: each mention takes three replies at most, and the
/// parent three more.
pub proof fn notifications_end(
    occasion: Occasion,
    mentions: Seq<MentionData>,
    replies: Seq<NotifReply>,
)
    ensures
        replies.len() >= 3 * mentions.len() + 3 ==> !(after(
            begin(occasion, mentions),
            replies,
        ) is Await),
{
    lemma_after(occasion, mentions, replies);
    lemma_targets_spare(occasion, mentions);
}

/// Whether notifications that wait in `turn` take every reply to their command.
pub open spec fn listens(turn: NotifTurnModel) -> bool {
    turn matches Turn::Await(state, command) ==> forall|reply: NotifReply|
        answers(command, reply) ==> !(#[trigger] state.next(reply) is Unexpected)
}

proof fn lemma_goes_on(occasion: Occasion, mentions: Seq<MentionData>, replies: Seq<NotifReply>)
    ensures
        ({
            let first = begin(occasion, mentions);
            let commands = issued(first, replies);
            &&& listens(after(first, replies))
            &&& after(first, replies) matches Turn::Await(_, command) ==> {
                &&& commands.len() == replies.len() + 1
                &&& commands.last() == command
            }
            &&& all_answer(commands, replies) ==> !(after(first, replies) is Unexpected)
        }),
    decreases replies.len(),
{
    if replies.len() > 0 {
        let first = begin(occasion, mentions);
        let before = replies.drop_last();
        lemma_goes_on(occasion, mentions, before);
        let commands = issued(first, replies);
        let earlier = issued(first, before);
        assert(forall|i: int| 0 <= i < earlier.len() ==> earlier[i] == commands[i]);
        if all_answer(commands, replies) {
            assert forall|i: int| 0 <= i < earlier.len() && i < before.len() implies answers(
                #[trigger] earlier[i],
                before[i],
            ) by {
                assert(answers(commands[i], replies[i]));
            }
            if let Turn::Await(_, _) = after(first, before) {
                assert(answers(commands[before.len() as int], replies.last()));
            }
        }
    }
}

/// Notifications whose replies all answer their commands never give up: they finish
/// within the bound of [`notifications_end`].
pub proof fn notifications_finish(
    occasion: Occasion,
    mentions: Seq<MentionData>,
    replies: Seq<NotifReply>,
)
    ensures
        ({
            let first = begin(occasion, mentions);
            all_answer(issued(first, replies), replies) ==> {
                &&& !(after(first, replies) is Unexpected)
                &&& replies.len() >= 3 * mentions.len() + 3 ==> after(first, replies) is Finished
            }
        }),
{
    lemma_goes_on(occasion, mentions, replies);
    notifications_end(occasion, mentions, replies);
}

/// Commenters are not notified of their own comments, neither for a mention of
/// their own name nor as the author of the parent.
pub proof fn commenters_are_spared(
    occasion: Occasion,
    mentions: Seq<MentionData>,
    replies: Seq<NotifReply>,
)
    ensures
        after(begin(occasion, mentions), replies) matches Turn::Await(_, command) ==> {
            &&& command matches NotifCommand::FindUser { name } ==> name@ != occasion.user.name@
            &&& command matches NotifCommand::ReadUser { user_id } ==> user_id != occasion.user.id
        },
{
    lemma_targets_spare(occasion, mentions);
    if replies.len() > 0 {
        lemma_after(occasion, mentions, replies.drop_last());
    }
}

/// A mention is stored for the user who was just found, and for this comment.
pub proof fn mentions_are_of_users_found(
    occasion: Occasion,
    mentions: Seq<MentionData>,
    replies: Seq<NotifReply>,
)
    ensures
        after(begin(occasion, mentions), replies) matches Turn::Await(
            _,
            NotifCommand::CreateMention(form),
        ) ==> {
            &&& replies.len() > 0
            &&& replies.last() matches NotifReply::User(Some(recipient))
            &&& form == occasion.mention(recipient)
        },
{
    if replies.len() > 0 {
        lemma_after(occasion, mentions, replies.drop_last());
    }
}

/// An e-mail goes out only where e-mails are wanted, and only to a user who was
/// found, who wants e-mails, and to the address of that user.
pub proof fn emails_are_wanted(
    occasion: Occasion,
    mentions: Seq<MentionData>,
    replies: Seq<NotifReply>,
)
    ensures
        after(begin(occasion, mentions), replies) matches Turn::Await(
            _,
            NotifCommand::SendEmail(email),
        ) ==> {
            &&& occasion.do_send_email
            &&& exists|i: int, notice: Notice|
                0 <= i < replies.len() && #[trigger] occasion.invites(replies[i], notice, email)
        },
{
    if replies.len() > 0 {
        let before = replies.drop_last();
        lemma_after(occasion, mentions, before);
        if let Turn::Await(_, NotifCommand::SendEmail(email)) = after(
            begin(occasion, mentions),
            replies,
        ) {
            if let Turn::Await(state, _) = after(begin(occasion, mentions), before) {
                if let NotifStage::Recording { recipient } = state.stage {
                    assert(occasion.invites(replies[before.len() - 1], Notice::Mention, email));
                }
                if let NotifStage::ReadingAuthor { notice } = state.stage {
                    assert(occasion.invites(replies[replies.len() - 1], notice, email));
                }
            }
        }
    }
}

/// The value, if there is one, as a list.
pub open spec fn listed<A>(value: Option<A>) -> Seq<A> {
    match value {
        Some(value) => seq![value],
        None => Seq::empty(),
    }
}

/// The numbers of these users.
pub open spec fn ids(users: Seq<User>) -> Seq<i32> {
    users.map_values(|user: User| user.id)
}

/// The mentions that these commands store, in their order.
pub open spec fn stored_mentions(commands: Seq<NotifCommand<EmailModel>>) -> Seq<UserMentionForm> {
    commands.filter_map(
        |command: NotifCommand<EmailModel>|
            match command {
                NotifCommand::CreateMention(form) => Some(form),
                _ => None,
            },
    )
}

/// The e-mails that these commands send, in their order.
pub open spec fn sent_emails(commands: Seq<NotifCommand<EmailModel>>) -> Seq<EmailModel> {
    commands.filter_map(
        |command: NotifCommand<EmailModel>|
            match command {
                NotifCommand::SendEmail(email) => Some(email),
                _ => None,
            },
    )
}

impl Occasion {
    /// The notes that the comment mentions these users.
    pub open spec fn mentions(self, users: Seq<User>) -> Seq<UserMentionForm> {
        users.map_values(|user: User| self.mention(user))
    }

    /// The e-mails that these users get: one for each who wants one.
    pub open spec fn notices(self, users: Seq<User>, notice: Notice) -> Seq<EmailModel> {
        users.filter_map(|user: User| self.notice(user, notice))
    }

    /// Why the author of the parent is notified.
    pub open spec fn reply_notice(self) -> Notice {
        if self.comment.parent_id is Some {
            Notice::CommentReply
        } else {
            Notice::PostReply
        }
    }
}

proof fn lemma_filter_map_first<A, B>(s: Seq<A>, f: spec_fn(A) -> Option<B>)
    requires
        s.len() > 0,
    ensures
        s.filter_map(f) == listed(f(s.first())) + s.drop_first().filter_map(f),
    decreases s.len(),
{
    reveal_with_fuel(Seq::filter_map, 2);
    if s.len() == 1 {
        assert(s.drop_last() =~= s.drop_first());
    } else {
        lemma_filter_map_first(s.drop_last(), f);
        assert(s.drop_last().drop_first() =~= s.drop_first().drop_last());
    }
    assert(s.filter_map(f) =~= listed(f(s.first())) + s.drop_first().filter_map(f));
}

proof fn lemma_first_command(
    command: NotifCommand<EmailModel>,
    rest: Seq<NotifCommand<EmailModel>>,
)
    ensures
        stored_mentions(seq![command] + rest) == (match command {
            NotifCommand::CreateMention(form) => seq![form],
            _ => Seq::empty(),
        }) + stored_mentions(rest),
        sent_emails(seq![command] + rest) == (match command {
            NotifCommand::SendEmail(email) => seq![email],
            _ => Seq::empty(),
        }) + sent_emails(rest),
{
    let commands = seq![command] + rest;
    assert(commands.drop_first() =~= rest);
    lemma_filter_map_first(
        commands,
        |command: NotifCommand<EmailModel>|
            match command {
                NotifCommand::CreateMention(form) => Some(form),
                _ => None,
            },
    );
    lemma_filter_map_first(
        commands,
        |command: NotifCommand<EmailModel>|
            match command {
                NotifCommand::SendEmail(email) => Some(email),
                _ => None,
            },
    );
}

/// Who is there to be found: users by name, comments and users by number.
pub struct Directory {
    pub by_name: spec_fn(String) -> Option<User>,
    pub comments: spec_fn(i32) -> Option<Comment>,
    pub users: spec_fn(i32) -> Option<User>,
}

impl Directory {
    /// The reply to a command, from this directory.
    pub open spec fn answer(self, command: NotifCommand<EmailModel>) -> NotifReply {
        match command {
            NotifCommand::FindUser { name } => NotifReply::User((self.by_name)(name)),
            NotifCommand::ReadComment { comment_id } => NotifReply::Comment(
                (self.comments)(comment_id),
            ),
            NotifCommand::ReadUser { user_id } => NotifReply::User((self.users)(user_id)),
            _ => NotifReply::Done,
        }
    }

    /// The users of these names, as far as they are there.
    pub open spec fn named(self, names: Seq<String>) -> Seq<User> {
        names.filter_map(self.by_name)
    }

    /// The author `author_id` of a parent, if they are there and not `user`.
    pub open spec fn author(self, author_id: i32, user: User) -> Option<User> {
        if author_id == user.id {
            None
        } else {
            (self.users)(author_id)
        }
    }

    /// The author of the parent of a comment, if they are there and did not write
    /// the comment themselves.
    pub open spec fn parent_author(self, occasion: Occasion) -> Option<User> {
        match occasion.comment.parent_id {
            Some(parent_id) => match (self.comments)(parent_id) {
                Some(parent) => self.author(parent.creator_id, occasion.user),
                None => None,
            },
            None => self.author(occasion.post.creator_id, occasion.user),
        }
    }

    /// The end of notifications whose commands are all answered from this
    /// directory.
    pub open spec fn conclusion(self, turn: NotifTurnModel) -> NotifTurnModel
        decreases
                match turn {
                    Turn::Await(state, _) => state.measure(),
                    _ => 0,
                },
    {
        match turn {
            Turn::Await(state, command) => self.conclusion(state.next(self.answer(command))),
            _ => turn,
        }
    }

    /// The commands of notifications whose commands are all answered from this
    /// directory, from `turn` on.
    pub open spec fn commands(self, turn: NotifTurnModel) -> Seq<NotifCommand<EmailModel>>
        decreases
                match turn {
                    Turn::Await(state, _) => state.measure(),
                    _ => 0,
                },
    {
        match turn {
            Turn::Await(state, command) => seq![command] + self.commands(
                state.next(self.answer(command)),
            ),
            _ => Seq::empty(),
        }
    }

    pub(crate) proof fn lemma_named_first(self, occasion: Occasion, names: Seq<String>)
        requires
            names.len() > 0,
        ensures
            ({
                let first = listed((self.by_name)(names.first()));
                let rest = self.named(names.drop_first());
                &&& ids(self.named(names)) == ids(first) + ids(rest)
                &&& occasion.mentions(self.named(names)) == occasion.mentions(first)
                    + occasion.mentions(rest)
                &&& occasion.notices(self.named(names), Notice::Mention) == occasion.notices(
                    first,
                    Notice::Mention,
                ) + occasion.notices(rest, Notice::Mention)
            }),
    {
        let first = listed((self.by_name)(names.first()));
        let rest = self.named(names.drop_first());
        lemma_filter_map_first(names, self.by_name);
        let all = self.named(names);
        assert(all == first + rest);
        assert(ids(all) =~= ids(first) + ids(rest));
        assert(occasion.mentions(all) =~= occasion.mentions(first) + occasion.mentions(rest));
        let notice = |user: User| occasion.notice(user, Notice::Mention);
        reveal_with_fuel(Seq::filter_map, 2);
        if first.len() > 0 {
            lemma_filter_map_first(all, notice);
            lemma_filter_map_first(first, notice);
            assert(all.drop_first() =~= rest);
            assert(first.drop_first() =~= Seq::<User>::empty());
        } else {
            assert(all =~= rest);
        }
        assert(occasion.notices(all, Notice::Mention) =~= occasion.notices(first, Notice::Mention)
            + occasion.notices(rest, Notice::Mention));
    }

    proof fn lemma_conclusion(self, state: NotifModel)
        ensures
            self.conclusion(state.onward()) == Turn::<
                NotifModel,
                NotifCommand<EmailModel>,
                Seq<i32>,
            >::Finished(
                state.recipient_ids + ids(self.named(state.remaining)) + ids(
                    listed(self.parent_author(state.occasion)),
                ),
            ),
        decreases state.remaining.len(),
    {
        reveal_with_fuel(Directory::conclusion, 5);
        if state.remaining.len() > 0 {
            self.lemma_named_first(state.occasion, state.remaining);
            let name = state.remaining.first();
            let rest = NotifModel {
                remaining: state.remaining.drop_first(),
                stage: NotifStage::Finding,
                ..state
            };
            match (self.by_name)(name) {
                Some(recipient) => {
                    let recorded = rest.with(recipient).at(NotifStage::Recording { recipient });
                    let mailed = recorded.at(NotifStage::Mailing);
                    assert(recorded.onward() == mailed.onward());
                    self.lemma_conclusion(recorded);
                    assert(state.recipient_ids + ids(self.named(state.remaining))
                        =~= recorded.recipient_ids + ids(self.named(rest.remaining)));
                },
                None => {
                    self.lemma_conclusion(rest);
                    assert(state.recipient_ids + ids(self.named(state.remaining))
                        =~= rest.recipient_ids + ids(self.named(rest.remaining)));
                },
            }
        } else {
            let author = listed(self.parent_author(state.occasion));
            assert(ids(self.named(state.remaining)) =~= Seq::<i32>::empty());
            assert(state.recipient_ids + ids(self.named(state.remaining)) =~= state.recipient_ids);
            match self.parent_author(state.occasion) {
                Some(author) => {
                    assert(ids(seq![author]) =~= seq![author.id]);
                    assert(state.recipient_ids.push(author.id) =~= state.recipient_ids + seq![
                        author.id,
                    ]);
                },
                None => {
                    assert(ids(author) =~= Seq::<i32>::empty());
                    assert(state.recipient_ids + ids(author) =~= state.recipient_ids);
                },
            }
        }
    }

    /// Who is notified: the users who are mentioned and are there, in the order
    /// of the mentions, and after them the author of the parent. Whether mentions
    /// are stored and e-mails are sent makes no difference to that.
    pub proof fn who_is_notified(self, occasion: Occasion, mentions: Seq<MentionData>)
        ensures
            self.conclusion(begin(occasion, mentions)) == Turn::<
                NotifModel,
                NotifCommand<EmailModel>,
                Seq<i32>,
            >::Finished(
                ids(self.named(targets(occasion, mentions))) + ids(
                    listed(self.parent_author(occasion)),
                ),
            ),
    {
        let state = NotifModel {
            occasion,
            remaining: targets(occasion, mentions),
            recipient_ids: Seq::empty(),
            stage: NotifStage::Finding,
        };
        self.lemma_conclusion(state);
        assert(state.recipient_ids + ids(self.named(state.remaining)) =~= ids(
            self.named(state.remaining),
        ));
    }

    proof fn lemma_to_author(self, state: NotifModel, author_id: i32, notice: Notice)
        ensures
            stored_mentions(self.commands(state.to_author(author_id, notice))) == Seq::<
                UserMentionForm,
            >::empty(),
            sent_emails(self.commands(state.to_author(author_id, notice))) == (match self.author(
                author_id,
                state.occasion.user,
            ) {
                Some(author) => listed(state.occasion.notice(author, notice)),
                None => Seq::empty(),
            }),
    {
        reveal_with_fuel(Directory::commands, 3);
        let none = Seq::<NotifCommand<EmailModel>>::empty();
        if author_id != state.occasion.user.id {
            let read = NotifCommand::<EmailModel>::ReadUser { user_id: author_id };
            lemma_first_command(read, none);
            if let Some(author) = (self.users)(author_id) {
                if let Some(email) = state.occasion.notice(author, notice) {
                    let send = NotifCommand::SendEmail(email);
                    lemma_first_command(send, none);
                    lemma_first_command(read, seq![send] + none);
                }
            }
        }
    }

    proof fn lemma_commands(self, state: NotifModel)
        ensures
            ({
                let commands = self.commands(state.onward());
                let found = self.named(state.remaining);
                &&& stored_mentions(commands) == state.occasion.mentions(found)
                &&& sent_emails(commands) == state.occasion.notices(found, Notice::Mention) + (
                match self.parent_author(state.occasion) {
                    Some(author) => listed(
                        state.occasion.notice(author, state.occasion.reply_notice()),
                    ),
                    None => Seq::empty(),
                })
            }),
        decreases state.remaining.len(),
    {
        let occasion = state.occasion;
        let commands = self.commands(state.onward());
        reveal_with_fuel(Directory::commands, 2);
        if state.remaining.len() > 0 {
            self.lemma_named_first(occasion, state.remaining);
            let name = state.remaining.first();
            let find = NotifCommand::<EmailModel>::FindUser { name };
            let rest = NotifModel {
                remaining: state.remaining.drop_first(),
                stage: NotifStage::Finding,
                ..state
            };
            match (self.by_name)(name) {
                Some(recipient) => {
                    let recorded = rest.with(recipient).at(NotifStage::Recording { recipient });
                    let mailed = recorded.at(NotifStage::Mailing);
                    let onward = self.commands(recorded.onward());
                    let record = NotifCommand::<EmailModel>::CreateMention(
                        occasion.mention(recipient),
                    );
                    assert(recorded.onward() == mailed.onward());
                    self.lemma_commands(recorded);
                    assert(occasion.mentions(seq![recipient]) =~= seq![
                        occasion.mention(recipient),
                    ]);
                    Seq::lemma_filter_map_singleton(
                        recipient,
                        |user: User| occasion.notice(user, Notice::Mention),
                    );
                    reveal_with_fuel(Directory::commands, 4);
                    match occasion.notice(recipient, Notice::Mention) {
                        Some(email) => {
                            let send = NotifCommand::SendEmail(email);
                            assert(commands == seq![find] + (seq![record] + (seq![send] + onward)));
                            lemma_first_command(send, onward);
                            lemma_first_command(record, seq![send] + onward);
                            lemma_first_command(find, seq![record] + (seq![send] + onward));
                        },
                        None => {
                            assert(commands == seq![find] + (seq![record] + onward));
                            lemma_first_command(record, onward);
                            lemma_first_command(find, seq![record] + onward);
                        },
                    }
                },
                None => {
                    self.lemma_commands(rest);
                    let onward = self.commands(rest.onward());
                    assert(commands == seq![find] + onward);
                    lemma_first_command(find, onward);
                    assert(occasion.mentions(Seq::empty()) =~= Seq::<UserMentionForm>::empty());
                    assert(occasion.notices(Seq::empty(), Notice::Mention) =~= Seq::<
                        EmailModel,
                    >::empty());
                },
            }
        } else {
            assert(self.named(state.remaining) =~= Seq::<User>::empty());
            assert(occasion.mentions(Seq::empty()) =~= Seq::<UserMentionForm>::empty());
            assert(occasion.notices(Seq::empty(), Notice::Mention) =~= Seq::<EmailModel>::empty());
            match occasion.comment.parent_id {
                Some(comment_id) => {
                    let read = NotifCommand::<EmailModel>::ReadComment { comment_id };
                    let reading = state.at(NotifStage::ReadingParent);
                    match (self.comments)(comment_id) {
                        Some(parent) => {
                            self.lemma_to_author(reading, parent.creator_id, Notice::CommentReply);
                            lemma_first_command(
                                read,
                                self.commands(
                                    reading.to_author(parent.creator_id, Notice::CommentReply),
                                ),
                            );
                        },
                        None => lemma_first_command(read, Seq::empty()),
                    }
                },
                None => self.lemma_to_author(
                    state,
                    occasion.post.creator_id,
                    Notice::PostReply,
                ),
            }
        }
    }

    /// What is done for those who are notified: for each user who is mentioned and
    /// is there one mention is stored, and for each of them, and for the author of
    /// the parent, one e-mail is sent if they want one. Nothing else is stored or
    /// sent.
    pub proof fn what_is_done(self, occasion: Occasion, mentions: Seq<MentionData>)
        ensures
            ({
                let commands = self.commands(begin(occasion, mentions));
                let found = self.named(targets(occasion, mentions));
                &&& stored_mentions(commands) == occasion.mentions(found)
                &&& sent_emails(commands) == occasion.notices(found, Notice::Mention) + (
                match self.parent_author(occasion) {
                    Some(author) => listed(occasion.notice(author, occasion.reply_notice())),
                    None => Seq::empty(),
                })
            }),
    {
        self.lemma_commands(
            NotifModel {
                occasion,
                remaining: targets(occasion, mentions),
                recipient_ids: Seq::empty(),
                stage: NotifStage::Finding,
            },
        );
    }
}

} // verus!

# lemmy_comments

The comment rules of a federated link aggregator, written and verified in
Verus: writing, editing, deleting, removing, saving, listing and voting on
comments, notifying those whom a comment concerns, and announcing private
messages to other sites.

Each request is a machine. `perform` gives its first turn; `resume` takes the
reply to the pending command and gives the next turn, until the request has
finished with an answer and a message for the chat server. The contracts say
what each turn is. The laws beside them speak of whole runs: which commands a
successful request gives and in which order, that nothing is changed without
leave, that errors end a request, that every request ends.

- `src/rows.rs`: rows, forms and errors.
- `src/protocol.rs`: commands, replies, turns and runs.
- `src/create.rs`, `edit.rs`, `delete.rs`, `remove.rs`, `mark_read.rs`,
  `save.rs`, `like.rs`, `list.rs`: the requests.
- `src/notify.rs`: notifications and e-mails.
- `src/activity.rs`: the calls into `activitystreams` and `url`; these are the
  only contracts that are trusted rather than proved.
- `src/private_message.rs`: announcements of private messages.
- `app/`: the wire format, and the loops that carry out the commands.
- `tests/`: runs of the machines on concrete values.

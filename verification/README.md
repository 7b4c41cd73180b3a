# deletion

How accounts, communities, posts, comments and private messages are deleted on an instance of a
federated link aggregator: at the request of a local user, or because another instance says so;
and how the federation is told of it.

The library decides; it performs nothing. A deletion hands out one action at a time (a read or
write of the database, a check, a message to send, a look at the clock) and goes on as the reply
to it decides. Its contract is a `Program`: the tree of all its actions and replies.

- `src/objects.rs`, `src/activities.rs`, `src/actions.rs`: the records, the activities, and the
  actions with their replies
- `src/program.rs`: programs, and the trait of the states that carry them out
- `src/account.rs`: the deletion of a local account
- `src/lookup.rs`, `src/verify.rs`, `src/receive.rs`: finding, checking and carrying out the
  deletion that an incoming activity asks for
- `src/send.rs`: telling the federation
- `src/automod.rs`, `src/clock.rs`: the automatic moderator, and the age of accounts
- `src/password.rs`, `src/urls.rs`: passwords and URLs
- `src/laws.rs` and the modules that end in `_laws`: what holds of every run
- `app/`: an asynchronous runner over the services of an instance

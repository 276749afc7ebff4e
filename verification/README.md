# mogcord

The storage layer of a chat backend, with its data rules proved in Verus.

- `src/` is the verified library: conversions between domain values and the
  documents kept in MongoDB (ids, users, channels, chats, servers, buckets,
  messages, refresh tokens, log lines), the aggregation pipelines that read
  chats, servers, messages, message pages, users and tokens in full (as plain stage values,
  one per BSON stage document)
  with the decisions around them, the relation rules (friend requests,
  confirming, blocking, removing), the bucket bookkeeping of new messages,
  the login and refresh checks, token revocations,
  and the request checks that decide what a handler does next. Each public
  function states what it returns; the laws on relations, buckets and
  requests are proof functions in `relation_laws.rs`, `message.rs` and
  `api.rs`.
- `app/` is the unverified side: the serde document types, the MongoDB
  queries (stage values turned into BSON), and the loops that run the
  verified request steps.
- `tests/` runs the library on concrete values.

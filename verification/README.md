# whisperfish (verified core)

The decision logic of the Whisperfish Signal client, written in Verus and
proved against its contracts:

- `sessions`: the session list (pinned first, stable), unread count.
- `recipient`: the recipient detail object as a state machine (selection,
  loading, safety-number analysis).
- `contact`: normalising typed phone numbers and the address-book search keys.
- `profile_refresh`: which outdated profile to fetch next and when to wake.
- `client_profile`: handling of fetched profiles and avatars.
- `reactions`, `group_v2`: the decisions of two database migrations.
- `codec`, `text`: UUID and hex texts, trimming, decimal numbers.

`app/` holds what runs around it: actor messages, session and contact
actors, the profile refresh stream with its store query, the address-book
query, and the migrations' database loops. The store, the Signal service
library and the Qt user interface are not part of it: app/ reaches them
through traits and closures that the full application provides.

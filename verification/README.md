# personal_secretary

The domain core of a personal QQ secretary, written in Verus. Verus proves
the contract of every function in `src/` except the small trusted wrappers
around outside crates (see below), whose contracts it takes on trust.

- `memory`, `memory_candidate`: structured long-term memory facts about
  people, projects and commitments, the candidates an extractor proposes from
  a batch of events, their validation, deterministic fingerprints and
  approval into confirmed facts.
- `notification_policy`: structured notification rules, quiet hours in a
  zone's local time and the evaluator that decides whether a due item is
  reminded, delayed or suppressed.
- `store_codes`, `policy_store_rules`, `policy_effects`, `policy_artifacts`,
  `memory_store_rules`, `notification_source`, `notification_ids`,
  `retrieval_rows`, `agenda`, `inbound_store_rules`, `follow_up_control`:
  the decisions that the MySQL stores take on the
  rows they lock, the stored codes they read back, and the identifiers and
  JSON receipts they write.
- `laws`: properties that span several functions, stated and proved.

Calls into `chrono`, `chrono-tz`, `uuid`, `sha2` and a few std functions
stand behind small trusted wrappers (`#[verifier::external_body]`): Verus
believes their contracts, which state what those crates compute, without
proof. `app/` holds
what Verus does not see: error types with `Display`, and the serde forms of
payloads, match keys and rules.

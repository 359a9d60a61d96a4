# test_app

The logic of the Internet Identity test app canister, verified with Verus.

- `src/chat.rs`: the one-room chat. Membership is capped; a join beyond the
  cap evicts the member quiet longest; sending refreshes activity, keeps the
  last messages, truncates long ones and says whom to notify.
- `src/chat_laws.rs`: what the room promises across calls.
- `src/http.rs`, `src/http_laws.rs`: the path a request names and the answer
  given what the certified asset store holds for it.
- `src/assets.rs`: the `.well-known` documents and the test endpoints' updates.
- `src/text.rs`: left-to-right, non-overlapping text replacement.
- `src/principal.rs`: principals as their bytes.
- `app/`: the canister endpoints, state, timers and the calls into the
  Internet Computer, the certified asset store and the notification clients.

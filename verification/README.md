# rok_api

The logic of a REST API for user accounts (register, login, current user,
password reset, magic links, user administration), as a Verus-verified
library, with the HTTP server around it in `app/`.

- `src/controllers/` — one step function per endpoint. The server calls it
  with `Begin`, performs the database action it returns, and calls it again
  with the outcome until it answers with a `Response`.
- `src/requests.rs`, `src/validation.rs` — request bodies and their field
  rules, checked through `rok_validate`.
- `src/auth.rs` — password hashing, token signing and magic links through
  `rok_auth`.
- `src/decimal.rs` — decimal text of user ids (token subjects).
- `src/policies.rs`, `src/claims.rs` — roles and the user policy; every
  `/api/v1/users` endpoint is for admins (`admin_refusal` in
  `src/controllers/user_controller.rs`).
- `src/config.rs`, `src/routes.rs` — settings with their defaults, and the
  route table.
- `src/laws.rs` — properties that span handlers.
- `app/` — axum handlers, the database calls, environment reading, JSON.

# user_auth

A user-account service: registration, login with bcrypt-hashed passwords,
lookups, updates and deletions of users, and JSON Web Token claims for
authenticated requests.

- `src/` is the verified library. `service` holds each account operation as
  a conversation with the user store: the function named after the operation
  (`UserService::register`, `UserService::login`, ...) decides the first store
  request (or the result), and its `*_resume` function decides, from the
  store's answer, the next request or the result. `password` wraps bcrypt,
  `token` builds token claims and reads `Authorization` headers, `responses`
  turns service results into answers, `error` maps failures to HTTP
  statuses, `text` holds the input checks, `model` the stored user. `store` models
  the user store as a table and proves the laws of whole conversations
  against it: unique emails, login after registration, rows kept under
  their ids, complete listings, repeated deletes and repeated updates.
- `app/` is the Rocket server: it reads requests and the environment, runs
  the conversations against MySQL through Diesel, encodes and decodes tokens
  with `jsonwebtoken`, and sends the library's answers as JSON.
- `tests/` exercises the library.

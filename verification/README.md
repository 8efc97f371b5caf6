# backend

The server of a self-hosted cloud storage platform: user signup and login with
Argon2id password hashes and HS256 session tokens in `HttpOnly` cookies, user
profiles and deletion, and uploads of files and folders into a virtual file
system whose contents live in MinIO.

## Layout

- `src/` — the library, verified with Verus. It holds the data types (fixed
  capacity strings, identifiers, token claims, file entries), the parsers
  (decimal numbers, token claims, upload headers), the queries of the
  repositories with their parameters, and every decision of the HTTP routes:
  which status and message a request is answered with, and in which order the
  database and the object store are asked for work (`UploadFlow`,
  `ChunkedUpload`). Calls into `jsonwebtoken`, `argon2`, `lettre` and `uuid`
  stand behind small trusted wrappers whose contracts say what the library
  relies on.
- `app/` — the Rocket server around the library: request guards, JSON bodies,
  the sqlx queries against MariaDB, the MinIO client and the route handlers,
  which perform the work that the library's decisions ask for.
- `tests/` — tests of the library on concrete values.

## Environment

`JWT_SECRET` (at least 32 bytes), `MARIADB_USER`, `MARIADB_PASSWORD`,
`MARIADB_DATABASE`, `MARIADB_HOST`, `MINIO_ROOT_USER`, `MINIO_ROOT_PASSWORD`,
`BUCKET_NAME`; `CORS_ALLOWED_ORIGIN` adds an origin besides `https://localhost`.

When `MAILER_HOST` is set, a signup sends a confirmation mail through that SMTP
relay (`MAILER_USER`, `MAILER_PASSWORD`; the HTML body is read from
`SIGNUP_HTML_PATH`, by default `signup_confirmation.html`), and a signup whose mail
fails is deleted again and answered 500. Without it, signups send no mail.

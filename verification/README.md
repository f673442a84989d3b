# update_service_api

The rules of a self-hosted update server for desktop and mobile applications,
written in Verus and proved against their contracts.

`src/` is the verified library:

- `validate` – user names, passwords, roles, platforms, applications,
  migrations between storage backends, account updates, the first
  administrator.
- `release` – the release lifecycle (draft, published, withdrawn), release
  input, update checks against SemVer (`semver`), download addresses.
- `range` – HTTP `Range` headers, download windows and download headers.
- `storage` – object keys on disk and in buckets, profile validation, the
  size and SHA-256 of objects read piece by piece, and the integrity checks
  of object transfers.
- `secret` – storage credentials sealed with AES-256-GCM (`aes-gcm`) in
  base64 (`base64`); opening a sealed credential gives it back.
- `auth` – password hashing (`argon2`), CSRF checks, session cookies and
  logins.
- `migration` – retry delays, failure handling, item routing and finishing,
  migration commands, and the state machine of a migration's worker.
- `upload` – the bookkeeping of a multipart upload.
- `page`, `config`, `codec` (`sha2`, `hex`, `base64`, `rand`), `text`,
  `error`.

`app/` is the HTTP service around it (axum, sqlx, the AWS SDK): routes,
database queries, file and network transfers, and the background workers,
each of which asks the library what to do.

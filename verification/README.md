# cloud_storage

A small cloud-storage service: users register with a code sent by e-mail, log in,
and keep files in a tree of directories, on disk and in PostgreSQL.

- `src/` is the library, verified with Verus. It holds the service's decisions:
  bearer-token parsing, token and code generation, the registration e-mail, the key
  under which a code is kept, the paths of files and directories, the upload of a
  multipart form (hash and size of what was written), and every service operation
  as a chain of steps, each taking the outcome of one database, disk, mail or
  cache operation and deciding the next.
- `app/` is the HTTP server around it (axum, sqlx, redis, lettre, tokio): it runs
  the operations that the library's steps ask for and sends the replies.
- `tests/` runs the library on concrete values.

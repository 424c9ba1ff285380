# opentube

The rules of the OpenTube video platform as a verified library, with the
services around it.

- `src/` is the library, verified with Verus:
  - `text.rs`: Unicode whitespace trimming, separator trimming, prefix tests,
    UTF-8 lengths and decimal rendering;
  - `api.rs`: the HTTP outcomes of rejected requests;
  - `auth.rs`: access-token claims and bearer credentials;
  - `identity.rs`: login e-mail normalisation, credential limits and Argon2
    password hashing and checking;
  - `video.rs`: upload validation, upload completion, catalogue listing and
    cursors, playback URLs, processing callbacks and failure codes;
  - `transcode.rs`: upload checks, rendition planning, the HLS master
    playlist, output keys, and the worker's acknowledge/retry/fail rules;
  - `laws.rs`: properties that span the worker and the video service.
- `app/` runs the identity service, the video service and the transcoding
  worker (`opentube identity-service|video-service|transcoding-worker`): HTTP
  with axum, PostgreSQL with sqlx, S3 storage, RabbitMQ, FFmpeg and JWT.
- `tests/` exercises the library on concrete values.

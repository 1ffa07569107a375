# mcpg-plugin-storage-s3

A content store in a bucket of S3, or of any service that speaks its protocol: content is kept by
its BLAKE3 hash, aliases stand for it by name, lifetimes end lazily on read or by a sweep, and
presigned links let clients download directly.

- `src/` is the store itself, verified with Verus. It decides and computes, and hands out the
  requests that are due. `src/bucket.rs` and `src/sweeping.rs` state what holds of its
  operations as a whole.
- `app/` makes the client, sends those requests and hands back the answers.
- `tests/` runs the store against a bucket in memory.

# moq_c2pa

The verified core of C2PA signing for Media over QUIC, written in Verus.

- `src/` is the library. `signer` prepares the segment signer: it reads the
  manifest's `sign_cert` member, fingerprints the certificate
  (`encoding`: base64 of the first 16 bytes of its SHA-256), builds the
  `c2pa-live-cbc` command line and judges its outcome. `track` and
  `track_laws` are the relay proxy's per-track state machine (probe the
  first frame, then sign or pass through every frame) and what holds of its
  runs. `relay` holds the proxy configuration and its loop decisions,
  `upstream` the upstream address and the bounded exponential reconnection
  back-off, `publish` the publisher's decoder choice, `decimal` the decimal
  rendering of segment indices.
- `app/` is the runtime around it: file reads, running the signing tool,
  clap/serde configuration and the async loops that perform the actions the
  library decides.
- `tests/` runs the library on concrete values.

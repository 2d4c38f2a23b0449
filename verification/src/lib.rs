//! Verified core of the MoQ C2PA signing pipeline: the segment signer's
//! manifest and certificate handling, the relay's track-signing decisions,
//! the upstream reconnection policy and the publisher's decoder selection.

mod outside;

pub mod decimal;
pub mod encoding;
pub mod error;
pub mod publish;
pub mod relay;
pub mod signer;
pub mod track;
pub mod track_laws;
pub mod upstream;

pub use decimal::{all_digits, decimal_digits, decimal_string, decimal_value, digit_char, law_decimal_round_trip};
pub use encoding::{base64_char, base64_standard, cert_fingerprint, cert_hash_b64, fingerprint_from_digest, fingerprint_shape, is_base64_symbol, law_base64_length, law_base64_one_byte_tail, law_fingerprint_of_whole_certificate};
pub use error::{ExitReport, SignerError};
pub use signer::{cert_location, law_sign_args_positions, manifest_sign_cert, resolve_cert_path, sign_args, sign_cert_from_lookup, sign_cert_key, sign_outcome, SegmentSigner, SignCommand};
pub use track::{frame_after_signing, law_wait_matches_step, frame_write, track_start, track_step, track_step_spec, track_wait, track_wait_spec, TrackEvent, TrackOp, TrackPhase, TrackWait};
pub use track_laws::{count_op, frames_read, frames_written, law_finished_once, law_frames_conserved, law_groups_balanced, law_groups_forwarded, law_groups_correspond, add_frame, source_groups, source_groups_step, output_groups, output_groups_step, groups_match, groups_read, pending_groups, law_probe_decides, law_sign_mode_fixed, law_whole_track, open_groups, pending_frames, track_run, writes_follow};
pub use upstream::{backoff_after, jwt_key, law_backoff_bounded, law_backoff_doubles, law_backoff_grows_on_failure, law_backoff_resets, next_backoff, target_from_url, upstream_target, Backoff, Upstream, UpstreamConfig, UpstreamTarget, INITIAL_BACKOFF_SECS, MAX_BACKOFF_SECS};
pub use publish::{decoder_plan, DecoderPlan, PublishError, PublishFormat};
pub use relay::{on_announcement, on_broadcast_event, AnnounceEvent, BroadcastAction, BroadcastEvent, C2paConfig, C2paProxy, ProxyAction, SignerPaths};
pub use outside::{json_document_valid, json_member_str, path_joined, path_parent_of, path_text, sha256, url_parses, url_with_query_pair};

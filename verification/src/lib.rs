//! Verified core of the Serein desktop client: the last-viewed channel record
//! and its stored form, the login handoff state machine and the origins it
//! trusts, channel marks, hold-to-scroll sessions and the chat selection
//! pointer.
pub mod text;
pub mod last_viewed;
pub mod origin;
pub mod secret;
pub mod handoff;
pub mod handoff_laws;
pub mod channel_marks;
pub mod scroll;
pub mod selection;

pub use last_viewed::{
    Id, LastViewedChannels, StoreError, LastViewedWrite,
    decode_last_viewed, encode_last_viewed,
};
pub use origin::{discord_origin, hcaptcha_origin, qr_exchange_uri, verification_storage_domains};
pub use secret::{SessionSecret, InvalidSecret, RandomUnavailable, new_capability, peek_script};
pub use handoff::{
    Handoff, LoginDiagnostics, LoginTermination, PolicyRequest, LIFETIME, QUERY_INTERVAL,
    MAX_BODY_BYTES,
};

//! Credential and secret lifecycle core: tagged byte-string encoding,
//! authenticated symmetric encryption, sealed elliptic-curve secrets,
//! configuration bootstrap, and password credentials.

mod config;
mod crypt;
mod encode;
mod error;
mod event;
mod followee;
mod follower;
mod marker;
mod member;

pub use config::contains_seq;
pub use config::gitignore_needs_entry;
pub use config::is_key_text;
pub use config::is_line_at;
pub use config::line_body;
pub use config::line_covers;
pub use config::matches_at;
pub use config::needs_entry;
pub use config::join_path;
pub use config::join_path_spec;
pub use config::Config;
pub use crypt::aead_open;
pub use crypt::be_bytes_value;
pub use crypt::decrypt_model;
pub use crypt::is_secret_scalar;
pub use crypt::lemma_blob_layout;
pub use crypt::seals_to;
pub use crypt::secp256k1_order;
pub use crypt::ChaCha20Poly1305;
pub use crypt::ChaCha20Poly1305Crypted;
pub use crypt::Secp256k1Secret;
pub use encode::b64_of;
pub use encode::Base64;
pub use event::Event;
pub use event::UStream;
pub use event::UStreamConnect;
pub use followee::Followee;
pub use followee::FolloweeCredentials;
pub use follower::Follower;
pub use follower::FollowerCredentials;
pub use marker::Marker;
pub use member::phc_params_computable;
pub use member::phc_verifies;
pub use member::phc_wellformed;
pub use member::Member;
pub use member::MemberCredentials;
pub use member::MemberCredentialsView;
pub use member::MemberProfile;

pub use error::InternalError;
pub use error::RequestError;
pub use error::RuntimeError;
pub use error::ServerConfigError;
